//! The commands of the shell and the grammar of a command line.
//!
//! A line is a sequence of words. The first word names the command; the words
//! after it are its arguments. A word that starts with `-` and is longer than
//! that one character reads as an option, and no command takes options, so
//! such a word is refused. The word `--` ends that reading: the words after it
//! are values as they stand.

use crate::text::chars_of;
use crate::text::text_eq;
use crate::text::texts;
use vstd::prelude::*;

verus! {

/// A command of the shell, with its arguments.
#[derive(Debug, PartialEq, Eq)]
pub enum Command {
    /// Show the version.
    Ver,
    /// Show the current date.
    Date,
    /// Show the current time.
    Time,
    /// Clear the terminal.
    Cls,
    /// Clear the terminal.
    Clear,
    /// List directory contents or module status.
    Ls,
    /// List directory contents or module status.
    Dir,
    /// Show the system status.
    Status,
    /// Show the system status.
    Mem,
    /// Check the integrity of one module against the ledger.
    CheckModuleIntegrity { module_name: Option<String> },
    /// Check the integrity of a fixed list of modules.
    SystemIntegrityCheck,
    /// Answer with a pong.
    Ping,
    /// Bring up the NPU.
    InitNpu,
    /// Show the emotional map.
    MapEmotion,
    /// Collapse a truth waveform.
    CollapseTruth { emotion: String, mode: String, time: String },
    /// Run a model through the HAL.
    RunOnnxTest { model_path: String, input_info: String },
}

/// A command with its arguments as sequences of characters.
pub enum CommandView {
    Ver,
    Date,
    Time,
    Cls,
    Clear,
    Ls,
    Dir,
    Status,
    Mem,
    CheckModuleIntegrity { module_name: Option<Seq<char>> },
    SystemIntegrityCheck,
    Ping,
    InitNpu,
    MapEmotion,
    CollapseTruth { emotion: Seq<char>, mode: Seq<char>, time: Seq<char> },
    RunOnnxTest { model_path: Seq<char>, input_info: Seq<char> },
}

impl View for Command {
    type V = CommandView;

    open spec fn view(&self) -> CommandView {
        match *self {
            Command::Ver => CommandView::Ver,
            Command::Date => CommandView::Date,
            Command::Time => CommandView::Time,
            Command::Cls => CommandView::Cls,
            Command::Clear => CommandView::Clear,
            Command::Ls => CommandView::Ls,
            Command::Dir => CommandView::Dir,
            Command::Status => CommandView::Status,
            Command::Mem => CommandView::Mem,
            Command::CheckModuleIntegrity { module_name } => CommandView::CheckModuleIntegrity {
                module_name: match module_name {
                    Some(name) => Some(name@),
                    None => None,
                },
            },
            Command::SystemIntegrityCheck => CommandView::SystemIntegrityCheck,
            Command::Ping => CommandView::Ping,
            Command::InitNpu => CommandView::InitNpu,
            Command::MapEmotion => CommandView::MapEmotion,
            Command::CollapseTruth { emotion, mode, time } => CommandView::CollapseTruth {
                emotion: emotion@,
                mode: mode@,
                time: time@,
            },
            Command::RunOnnxTest { model_path, input_info } => CommandView::RunOnnxTest {
                model_path: model_path@,
                input_info: input_info@,
            },
        }
    }
}

/// Why a line is no command.
#[derive(Debug, Clone, Copy, PartialEq, Eq, Structural)]
pub enum ParseError {
    /// The line does not start with the name of a command.
    UnknownCommand,
    /// An option stands among the arguments, or more values than the command
    /// takes.
    UnexpectedArgument,
    /// The command takes more values than the line gives.
    MissingArgument,
}

/// The command that `name` stands for by itself, where it names one that
/// takes no value.
pub open spec fn plain_command(name: Seq<char>) -> Option<CommandView> {
    if name == "ver"@ {
        Some(CommandView::Ver)
    } else if name == "date"@ {
        Some(CommandView::Date)
    } else if name == "time"@ {
        Some(CommandView::Time)
    } else if name == "cls"@ {
        Some(CommandView::Cls)
    } else if name == "clear"@ {
        Some(CommandView::Clear)
    } else if name == "ls"@ {
        Some(CommandView::Ls)
    } else if name == "dir"@ {
        Some(CommandView::Dir)
    } else if name == "status"@ {
        Some(CommandView::Status)
    } else if name == "mem"@ {
        Some(CommandView::Mem)
    } else if name == "system-integrity-check"@ {
        Some(CommandView::SystemIntegrityCheck)
    } else if name == "ping"@ {
        Some(CommandView::Ping)
    } else if name == "init-npu"@ {
        Some(CommandView::InitNpu)
    } else if name == "map-emotion"@ {
        Some(CommandView::MapEmotion)
    } else {
        None
    }
}

/// Whether `word` reads as an option: a `-` and at least one more character.
pub open spec fn is_option(word: Seq<char>) -> bool {
    word.len() >= 2 && word[0] == '-'
}

/// The values among the arguments `args`, or `None` where an option stands
/// among them. The first `--` is no value; it makes values of all that
/// follows.
pub open spec fn values(args: Seq<Seq<char>>) -> Option<Seq<Seq<char>>>
    decreases args.len(),
{
    if args.len() == 0 {
        Some(Seq::empty())
    } else if args[0] == "--"@ {
        Some(args.drop_first())
    } else if is_option(args[0]) {
        None
    } else {
        match values(args.drop_first()) {
            Some(rest) => Some(seq![args[0]] + rest),
            None => None,
        }
    }
}

/// The command that `name` makes of the values `given`.
pub open spec fn command_of(name: Seq<char>, given: Seq<Seq<char>>) -> Result<
    CommandView,
    ParseError,
> {
    if plain_command(name) is Some {
        if given.len() == 0 {
            Ok(plain_command(name)->0)
        } else {
            Err(ParseError::UnexpectedArgument)
        }
    } else if name == "check-module-integrity"@ {
        if given.len() == 0 {
            Ok(CommandView::CheckModuleIntegrity { module_name: None })
        } else if given.len() == 1 {
            Ok(CommandView::CheckModuleIntegrity { module_name: Some(given[0]) })
        } else {
            Err(ParseError::UnexpectedArgument)
        }
    } else if name == "collapse-truth"@ {
        if given.len() > 3 {
            Err(ParseError::UnexpectedArgument)
        } else if given.len() < 3 {
            Err(ParseError::MissingArgument)
        } else {
            Ok(CommandView::CollapseTruth { emotion: given[0], mode: given[1], time: given[2] })
        }
    } else if name == "run-onnx-test"@ {
        if given.len() > 2 {
            Err(ParseError::UnexpectedArgument)
        } else if given.len() < 2 {
            Err(ParseError::MissingArgument)
        } else {
            Ok(CommandView::RunOnnxTest { model_path: given[0], input_info: given[1] })
        }
    } else {
        Err(ParseError::UnknownCommand)
    }
}

/// Whether `name` is the name of a command.
pub open spec fn is_command_name(name: Seq<char>) -> bool {
    ||| plain_command(name) is Some
    ||| name == "check-module-integrity"@
    ||| name == "collapse-truth"@
    ||| name == "run-onnx-test"@
}

/// The command that the words `line` spell, or why they spell none. An
/// unknown name is reported before anything about the arguments, and an
/// unexpected argument before a missing one.
pub open spec fn parse(line: Seq<Seq<char>>) -> Result<CommandView, ParseError> {
    if line.len() == 0 || !is_command_name(line[0]) {
        Err(ParseError::UnknownCommand)
    } else {
        match values(line.drop_first()) {
            Some(given) => command_of(line[0], given),
            None => Err(ParseError::UnexpectedArgument),
        }
    }
}

/// A parse result with the command taken by its view.
pub open spec fn parse_view(result: Result<Command, ParseError>) -> Result<
    CommandView,
    ParseError,
> {
    match result {
        Ok(command) => Ok(command@),
        Err(error) => Err(error),
    }
}

/// Whether `word` reads as an option.
pub fn word_is_option(word: &str) -> (option: bool)
    ensures
        option == is_option(word@),
{
    let chars = chars_of(word);
    chars.len() >= 2 && chars[0] == '-'
}

/// The values among the words of `line` after its first, each a copy of the
/// word it stands for; `None` where an option stands among them.
fn collect_values(line: &Vec<String>) -> (given: Option<Vec<String>>)
    requires
        line.len() > 0,
    ensures
        match given {
            Some(found) => values(texts(line@).drop_first()) == Some(texts(found@)),
            None => values(texts(line@).drop_first()) is None,
        },
{
    let ghost args = texts(line@).drop_first();
    let mut found: Vec<String> = Vec::new();
    let mut escaped = false;
    let mut i: usize = 1;
    assert(args.skip(0) =~= args);
    assert(texts(found@) =~= Seq::<Seq<char>>::empty());
    while i < line.len()
        invariant
            1 <= i <= line.len(),
            args == texts(line@).drop_first(),
            escaped ==> values(args) == Some(texts(found@) + args.skip(i - 1)),
            !escaped ==> values(args) == match values(args.skip(i - 1)) {
                Some(rest) => Some(texts(found@) + rest),
                None => None,
            },
        decreases line.len() - i,
    {
        let word = line[i].as_str();
        let ghost rest = args.skip(i - 1);
        assert(rest[0] == word@);
        assert(rest.drop_first() =~= args.skip(i as int));
        if escaped {
            let copy = word.to_owned();
            assert(texts(found@.push(copy)) =~= texts(found@) + seq![word@]);
            assert(texts(found@) + rest =~= (texts(found@) + seq![word@]) + args.skip(i as int));
            found.push(copy);
        } else if text_eq(word, "--") {
            escaped = true;
        } else if word_is_option(word) {
            return None;
        } else {
            let copy = word.to_owned();
            proof {
                assert(texts(found@.push(copy)) =~= texts(found@) + seq![word@]);
                if let Some(tail) = values(args.skip(i as int)) {
                    assert(texts(found@) + (seq![word@] + tail) =~= (texts(found@) + seq![word@])
                        + tail);
                }
            }
            found.push(copy);
        }
        i = i + 1;
    }
    proof {
        assert(args.skip(line.len() - 1) =~= Seq::<Seq<char>>::empty());
        assert(texts(found@) + Seq::<Seq<char>>::empty() =~= texts(found@));
    }
    Some(found)
}

/// The command without values that `name` stands for, if it names one.
pub fn plain_command_of(name: &str) -> (command: Option<Command>)
    ensures
        match command {
            Some(found) => plain_command(name@) == Some(found@),
            None => plain_command(name@) is None,
        },
{
    if text_eq(name, "ver") {
        Some(Command::Ver)
    } else if text_eq(name, "date") {
        Some(Command::Date)
    } else if text_eq(name, "time") {
        Some(Command::Time)
    } else if text_eq(name, "cls") {
        Some(Command::Cls)
    } else if text_eq(name, "clear") {
        Some(Command::Clear)
    } else if text_eq(name, "ls") {
        Some(Command::Ls)
    } else if text_eq(name, "dir") {
        Some(Command::Dir)
    } else if text_eq(name, "status") {
        Some(Command::Status)
    } else if text_eq(name, "mem") {
        Some(Command::Mem)
    } else if text_eq(name, "system-integrity-check") {
        Some(Command::SystemIntegrityCheck)
    } else if text_eq(name, "ping") {
        Some(Command::Ping)
    } else if text_eq(name, "init-npu") {
        Some(Command::InitNpu)
    } else if text_eq(name, "map-emotion") {
        Some(Command::MapEmotion)
    } else {
        None
    }
}

/// Reads the words of a line as a command.
pub fn parse_command(line: &Vec<String>) -> (result: Result<Command, ParseError>)
    ensures
        parse_view(result) == parse(texts(line@)),
{
    if line.len() == 0 {
        return Err(ParseError::UnknownCommand);
    }
    let name = line[0].as_str();
    assert(texts(line@)[0] == name@);
    let plain = plain_command_of(name);
    let takes_name = text_eq(name, "check-module-integrity");
    let takes_three = text_eq(name, "collapse-truth");
    let takes_two = text_eq(name, "run-onnx-test");
    if plain.is_none() && !takes_name && !takes_three && !takes_two {
        return Err(ParseError::UnknownCommand);
    }
    let given = match collect_values(line) {
        Some(given) => given,
        None => {
            return Err(ParseError::UnexpectedArgument);
        },
    };
    let count = given.len();
    assert(forall|k: int| 0 <= k < count ==> texts(given@)[k] == given@[k]@);
    match plain {
        Some(command) => {
            if count == 0 {
                Ok(command)
            } else {
                Err(ParseError::UnexpectedArgument)
            }
        },
        None => {
            if takes_name {
                if count == 0 {
                    Ok(Command::CheckModuleIntegrity { module_name: None })
                } else if count == 1 {
                    Ok(Command::CheckModuleIntegrity { module_name: Some(given[0].clone()) })
                } else {
                    Err(ParseError::UnexpectedArgument)
                }
            } else if takes_three {
                if count > 3 {
                    Err(ParseError::UnexpectedArgument)
                } else if count < 3 {
                    Err(ParseError::MissingArgument)
                } else {
                    Ok(
                        Command::CollapseTruth {
                            emotion: given[0].clone(),
                            mode: given[1].clone(),
                            time: given[2].clone(),
                        },
                    )
                }
            } else {
                if count > 2 {
                    Err(ParseError::UnexpectedArgument)
                } else if count < 2 {
                    Err(ParseError::MissingArgument)
                } else {
                    Ok(
                        Command::RunOnnxTest {
                            model_path: given[0].clone(),
                            input_info: given[1].clone(),
                        },
                    )
                }
            }
        },
    }
}

} // verus!
