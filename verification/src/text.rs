//! Text primitives shared by the HAL and the shell: character classes,
//! comparison of string slices, and the splitting of a line into words.
//!
//! Every contract here is stated over `Seq<char>`, the view of `str` and
//! `String`.

use vstd::prelude::*;
use vstd::string::StrSliceExecFns;
use vstd::string::StringExecFns;

verus! {

/// The code points that carry the Unicode `White_Space` property.
pub open spec fn spec_is_whitespace(c: char) -> bool {
    let n = c as u32;
    ||| 0x09 <= n <= 0x0D
    ||| n == 0x20
    ||| n == 0x85
    ||| n == 0xA0
    ||| n == 0x1680
    ||| 0x2000 <= n <= 0x200A
    ||| n == 0x2028
    ||| n == 0x2029
    ||| n == 0x202F
    ||| n == 0x205F
    ||| n == 0x3000
}

/// Whether `c` is a white-space character.
#[verifier::when_used_as_spec(spec_is_whitespace)]
pub fn is_whitespace(c: char) -> (blank: bool)
    ensures
        blank == spec_is_whitespace(c),
{
    let n: u32 = c as u32;
    (0x09 <= n && n <= 0x0D) || n == 0x20 || n == 0x85 || n == 0xA0 || n == 0x1680 || (0x2000 <= n
        && n <= 0x200A) || n == 0x2028 || n == 0x2029 || n == 0x202F || n == 0x205F || n == 0x3000
}

/// The code point of `c` with the ASCII capitals mapped onto their small
/// letters; every other character stands for itself.
pub open spec fn spec_fold_ascii(c: char) -> u32 {
    let n = c as u32;
    if 0x41 <= n <= 0x5A {
        (n + 0x20) as u32
    } else {
        n
    }
}

/// The case-folded code point of `c`.
#[verifier::when_used_as_spec(spec_fold_ascii)]
pub fn fold_ascii(c: char) -> (folded: u32)
    ensures
        folded == spec_fold_ascii(c),
{
    let n: u32 = c as u32;
    if 0x41 <= n && n <= 0x5A {
        n + 0x20
    } else {
        n
    }
}

/// Two texts are equal up to the case of their ASCII letters.
pub open spec fn spec_eq_ignore_ascii_case(a: Seq<char>, b: Seq<char>) -> bool {
    &&& a.len() == b.len()
    &&& forall|i: int| 0 <= i < a.len() ==> spec_fold_ascii(a[i]) == spec_fold_ascii(b[i])
}

/// The characters of `s`, in order.
pub fn chars_of(s: &str) -> (chars: Vec<char>)
    ensures
        chars@ == s@,
{
    let mut chars: Vec<char> = Vec::new();
    for c in it: s.chars()
        invariant
            it.seq() == s@,
            chars@ == it.seq().take(it.index()),
    {
        chars.push(c);
    }
    chars
}

/// Whether `a` and `b` hold the same characters.
pub fn text_eq(a: &str, b: &str) -> (same: bool)
    ensures
        same == (a@ == b@),
{
    let x = chars_of(a);
    let y = chars_of(b);
    if x.len() != y.len() {
        return false;
    }
    let mut i: usize = 0;
    while i < x.len()
        invariant
            x@ == a@,
            y@ == b@,
            i <= x.len(),
            x.len() == y.len(),
            forall|k: int| 0 <= k < i ==> x@[k] == y@[k],
        decreases x.len() - i,
    {
        if x[i] != y[i] {
            return false;
        }
        i = i + 1;
    }
    assert(x@ =~= y@);
    true
}

/// Whether `a` and `b` are equal once the case of ASCII letters is set aside.
pub fn eq_ignore_ascii_case(a: &str, b: &str) -> (same: bool)
    ensures
        same == spec_eq_ignore_ascii_case(a@, b@),
{
    let x = chars_of(a);
    let y = chars_of(b);
    if x.len() != y.len() {
        return false;
    }
    let mut i: usize = 0;
    while i < x.len()
        invariant
            x@ == a@,
            y@ == b@,
            i <= x.len(),
            x.len() == y.len(),
            forall|k: int| 0 <= k < i ==> spec_fold_ascii(x@[k]) == spec_fold_ascii(y@[k]),
        decreases x.len() - i,
    {
        if fold_ascii(x[i]) != fold_ascii(y[i]) {
            return false;
        }
        i = i + 1;
    }
    true
}

/// The text `head`, then `tail`.
pub fn join(head: &str, tail: &str) -> (out: String)
    ensures
        out@ == head@ + tail@,
{
    let mut out = head.to_owned();
    out.append(tail);
    out
}

/// The text `head`, then `body`, then `tail`.
pub fn enclose(head: &str, body: &str, tail: &str) -> (out: String)
    ensures
        out@ == head@ + body@ + tail@,
{
    let mut out = head.to_owned();
    out.append(body);
    out.append(tail);
    out
}

/// The number of characters before the first white space of `s`, or the
/// length of `s` where it holds none.
pub open spec fn word_len(s: Seq<char>) -> nat
    decreases s.len(),
{
    if s.len() == 0 || spec_is_whitespace(s[0]) {
        0
    } else {
        1 + word_len(s.drop_first())
    }
}

/// The words of `s`: its maximal runs of characters that are not white space,
/// from left to right.
pub open spec fn words(s: Seq<char>) -> Seq<Seq<char>>
    decreases s.len(),
{
    if s.len() == 0 {
        Seq::empty()
    } else if spec_is_whitespace(s[0]) {
        words(s.drop_first())
    } else {
        proof {
            lemma_word_len(s);
        }
        seq![s.take(word_len(s) as int)] + words(s.skip(word_len(s) as int))
    }
}

/// The views of a sequence of strings.
pub open spec fn texts(v: Seq<String>) -> Seq<Seq<char>> {
    Seq::new(v.len(), |i: int| v[i]@)
}

/// `word_len(s)` is the one index that ends a run of characters without
/// white space at the start of `s`, at a white space or at the end of `s`.
pub proof fn lemma_word_len(s: Seq<char>)
    ensures
        word_len(s) <= s.len(),
        forall|i: int| 0 <= i < word_len(s) ==> !spec_is_whitespace(s[i]),
        word_len(s) < s.len() ==> spec_is_whitespace(s[word_len(s) as int]),
        s.len() > 0 && !spec_is_whitespace(s[0]) ==> word_len(s) >= 1,
    decreases s.len(),
{
    if s.len() != 0 && !spec_is_whitespace(s[0]) {
        let rest = s.drop_first();
        lemma_word_len(rest);
        assert forall|i: int| 0 <= i < word_len(s) implies !spec_is_whitespace(s[i]) by {
            if i > 0 {
                assert(s[i] == rest[i - 1]);
            }
        }
        if word_len(s) < s.len() {
            assert(s[word_len(s) as int] == rest[word_len(rest) as int]);
        }
    }
}

/// A run without white space that stops at a white space, or at the end of
/// `s`, has the length `word_len(s)`.
pub proof fn lemma_word_len_is(s: Seq<char>, n: int)
    requires
        0 <= n <= s.len(),
        forall|i: int| 0 <= i < n ==> !spec_is_whitespace(s[i]),
        n < s.len() ==> spec_is_whitespace(s[n]),
    ensures
        word_len(s) == n,
{
    lemma_word_len(s);
    let m = word_len(s) as int;
    if m < n {
        assert(spec_is_whitespace(s[m]));
    } else if n < m {
        assert(!spec_is_whitespace(s[n]));
    }
}

/// A text has no words exactly when all of its characters are white space.
pub proof fn lemma_no_words(s: Seq<char>)
    ensures
        words(s).len() == 0 <==> (forall|i: int| 0 <= i < s.len() ==> spec_is_whitespace(s[i])),
    decreases s.len(),
{
    if s.len() != 0 {
        if spec_is_whitespace(s[0]) {
            let rest = s.drop_first();
            lemma_no_words(rest);
            if words(s).len() == 0 {
                assert forall|i: int| 0 <= i < s.len() implies spec_is_whitespace(s[i]) by {
                    if i > 0 {
                        assert(s[i] == rest[i - 1]);
                    }
                }
            } else {
                let k = choose|k: int| 0 <= k < rest.len() && !spec_is_whitespace(rest[k]);
                assert(s[k + 1] == rest[k]);
            }
        } else {
            assert(words(s).len() >= 1);
        }
    }
}

/// Every word holds at least one character and no white space.
pub proof fn lemma_words_are_solid(s: Seq<char>)
    ensures
        forall|k: int|
            0 <= k < words(s).len() ==> {
                &&& (#[trigger] words(s)[k]).len() > 0
                &&& forall|i: int|
                    0 <= i < words(s)[k].len() ==> !spec_is_whitespace(words(s)[k][i])
            },
    decreases s.len(),
{
    if s.len() != 0 {
        if spec_is_whitespace(s[0]) {
            lemma_words_are_solid(s.drop_first());
            assert(words(s) == words(s.drop_first()));
        } else {
            lemma_word_len(s);
            let n = word_len(s) as int;
            let head = s.take(n);
            let tail = words(s.skip(n));
            lemma_words_are_solid(s.skip(n));
            assert forall|k: int| 0 <= k < words(s).len() implies {
                &&& (#[trigger] words(s)[k]).len() > 0
                &&& forall|i: int|
                    0 <= i < words(s)[k].len() ==> !spec_is_whitespace(words(s)[k][i])
            } by {
                assert(words(s) == seq![head] + tail);
                if k == 0 {
                    assert(words(s)[0] == head);
                    assert(head.len() == n);
                    assert forall|i: int| 0 <= i < head.len() implies !spec_is_whitespace(
                        head[i],
                    ) by {
                        assert(head[i] == s[i]);
                    }
                } else {
                    assert(words(s)[k] == tail[k - 1]);
                }
            }
        }
    }
}

/// Splits `line` at white space into its words. Each word holds at least one
/// character and no white space, and there is none exactly when `line` is
/// empty or all white space.
pub fn split_whitespace(line: &str) -> (out: Vec<String>)
    ensures
        texts(out@) == words(line@),
        forall|k: int|
            0 <= k < out.len() ==> {
                &&& (#[trigger] out[k])@.len() > 0
                &&& forall|i: int| 0 <= i < out[k]@.len() ==> !spec_is_whitespace(out[k]@[i])
            },
        out.len() == 0 <==> (forall|i: int| 0 <= i < line@.len() ==> spec_is_whitespace(line@[i])),
{
    let chars = chars_of(line);
    let n = chars.len();
    let mut out: Vec<String> = Vec::new();
    let mut i: usize = 0;
    assert(line@.skip(0) =~= line@);
    assert(texts(out@) =~= Seq::<Seq<char>>::empty());
    while i < n
        invariant
            chars@ == line@,
            n == chars.len(),
            i <= n,
            words(line@) == texts(out@) + words(line@.skip(i as int)),
        decreases n - i,
    {
        let ghost rest = line@.skip(i as int);
        assert(rest[0] == line@[i as int]);
        if is_whitespace(chars[i]) {
            assert(rest.drop_first() =~= line@.skip(i + 1));
            i = i + 1;
        } else {
            let mut j: usize = i + 1;
            while j < n && !is_whitespace(chars[j])
                invariant
                    chars@ == line@,
                    n == chars.len(),
                    i < j <= n,
                    forall|k: int| i <= k < j ==> !spec_is_whitespace(line@[k]),
                decreases n - j,
            {
                j = j + 1;
            }
            let word = line.substring_char(i, j).to_owned();
            proof {
                let len = j - i;
                assert forall|k: int| 0 <= k < len implies !spec_is_whitespace(rest[k]) by {
                    assert(rest[k] == line@[i + k]);
                }
                if len < rest.len() {
                    assert(rest[len] == line@[j as int]);
                }
                lemma_word_len_is(rest, len);
                assert(rest.take(len) =~= line@.subrange(i as int, j as int));
                assert(rest.skip(len) =~= line@.skip(j as int));
                assert(texts(out@.push(word)) =~= texts(out@) + seq![word@]);
                assert(texts(out@) + (seq![rest.take(len)] + words(rest.skip(len))) =~= (texts(
                    out@,
                ) + seq![word@]) + words(line@.skip(j as int)));
            }
            out.push(word);
            i = j;
        }
    }
    proof {
        assert(line@.skip(n as int) =~= Seq::<char>::empty());
        assert(texts(out@) + Seq::<Seq<char>>::empty() =~= texts(out@));
        lemma_words_are_solid(line@);
        lemma_no_words(line@);
        assert forall|k: int| 0 <= k < out.len() implies (#[trigger] out[k])@ == words(
            line@,
        )[k] by {
            assert(texts(out@)[k] == out[k]@);
        }
    }
    out
}

} // verus!
