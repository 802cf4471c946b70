//! The shell: what a line of input leads to, and the text that each command
//! puts on the terminal.
//!
//! Nothing here prints. Every function returns the text that belongs on
//! standard output, so that the caller's loop is all that is left to do:
//! read a line, ask [`interpret_line`], print what [`handle_command`] returns.

use crate::clock::is_calendar_date;
use crate::clock::is_time_of_day;
use crate::clock::local_now;
use crate::clock::DATE_PATTERN;
use crate::clock::TIME_PATTERN;
use crate::command::parse;
use crate::command::parse_command;
use crate::command::Command;
use crate::command::CommandView;
use crate::command::ParseError;
use crate::hal::HalTrait;
use crate::hal::TensorData;
use crate::hal::INTERNAL_SOURCE;
use crate::hal::LEDGER_SOURCE;
use crate::text::enclose;
use crate::text::eq_ignore_ascii_case;
use crate::text::join;
use crate::text::lemma_no_words;
use crate::text::spec_eq_ignore_ascii_case;
use crate::text::spec_is_whitespace;
use crate::text::split_whitespace;
use crate::text::texts;
use crate::text::words;
use vstd::prelude::*;
use vstd::string::StringExecFns;

verus! {

/// What the shell shows when it starts.
pub const BANNER: &'static str = "\
***************************************************\n\
*                                                 *\n\
*        Welcome to SoulWare CLI (SoulDOS)        *\n\
*                  Version 0.0.1-alpha            *\n\
*                                                 *\n\
***************************************************\n\
Initializing System...\n";

/// What the shell shows before it reads a line.
pub const PROMPT: &'static str = "\nSoulDOS> ";

/// What the shell shows when it is left.
pub const FAREWELL: &'static str = "Exiting SoulWare CLI...\n";

/// What `ver` shows.
pub const VERSION_LINE: &'static str =
    "SoulWare CLI Version 0.0.1-alpha (Handled by 'ver' command)\n";

/// What `cls` and `clear` send: erase the display, then move the cursor home.
pub const CLEAR_SCREEN: &'static str = "\x1B[2J\x1B[H";

/// What `ls` and `dir` show.
pub const LISTING_LINE: &'static str =
    "Placeholder: Listing directory contents or module status...\n";

/// What `ping` shows.
pub const PONG_LINE: &'static str = "pong!\n";

/// What `check-module-integrity` shows where no module is named.
pub const USAGE_LINE: &'static str = "Usage: check-module-integrity <module_name>\n";

/// What the shell is to do with a line of input.
#[derive(Debug, PartialEq, Eq)]
pub enum LineAction {
    /// The line holds no word: nothing is shown, and the next line is read.
    Skip,
    /// The line asks to leave: the session ends.
    Quit,
    /// The line is a command: it is carried out, and the next line is read.
    Dispatch(Command),
    /// The line is no command: that is reported, and the next line is read.
    Reject(ParseError),
}

/// A [`LineAction`] with the command taken by its view.
pub enum LineActionView {
    Skip,
    Quit,
    Dispatch(CommandView),
    Reject(ParseError),
}

impl View for LineAction {
    type V = LineActionView;

    open spec fn view(&self) -> LineActionView {
        match *self {
            LineAction::Skip => LineActionView::Skip,
            LineAction::Quit => LineActionView::Quit,
            LineAction::Dispatch(command) => LineActionView::Dispatch(command@),
            LineAction::Reject(error) => LineActionView::Reject(error),
        }
    }
}

/// Whether `word` is `exit` or `quit`, in any mix of small and capital letters.
pub open spec fn is_leave_word(word: Seq<char>) -> bool {
    spec_eq_ignore_ascii_case(word, "exit"@) || spec_eq_ignore_ascii_case(word, "quit"@)
}

/// What a line of input leads to. A line without words is skipped; a line
/// that is one word, `exit` or `quit`, ends the session; every other line is
/// read as a command.
pub open spec fn line_action(line: Seq<char>) -> LineActionView {
    let found = words(line);
    if found.len() == 0 {
        LineActionView::Skip
    } else if found.len() == 1 && is_leave_word(found[0]) {
        LineActionView::Quit
    } else {
        match parse(found) {
            Ok(command) => LineActionView::Dispatch(command),
            Err(error) => LineActionView::Reject(error),
        }
    }
}

/// A line is skipped exactly when it is empty or all white space.
pub proof fn lemma_skip_blank_lines(line: Seq<char>)
    ensures
        line_action(line) is Skip <==> (forall|i: int|
            0 <= i < line.len() ==> spec_is_whitespace(line[i])),
{
    lemma_no_words(line);
}

/// Decides what a line of input leads to. An empty line, or one of white
/// space alone, is skipped, and no other line is.
pub fn interpret_line(line: &str) -> (action: LineAction)
    ensures
        action@ == line_action(line@),
        action is Skip <==> (forall|i: int| 0 <= i < line@.len() ==> spec_is_whitespace(line@[i])),
{
    proof {
        lemma_skip_blank_lines(line@);
    }
    let found = split_whitespace(line);
    if found.len() == 0 {
        return LineAction::Skip;
    }
    assert(texts(found@)[0] == found@[0]@);
    if found.len() == 1 && (eq_ignore_ascii_case(found[0].as_str(), "exit")
        || eq_ignore_ascii_case(found[0].as_str(), "quit")) {
        return LineAction::Quit;
    }
    match parse_command(&found) {
        Ok(command) => LineAction::Dispatch(command),
        Err(error) => LineAction::Reject(error),
    }
}

/// A reading of the clock on a line of its own.
pub open spec fn clock_text(now: Seq<char>) -> Seq<char> {
    now + "\n"@
}

/// What `status` and `mem` show for the result `result` of the status call.
pub open spec fn status_text(result: Result<String, String>) -> Seq<char> {
    "\nFetching system status...\n"@ + (match result {
        Ok(status) => "System Status: "@ + status@ + "\n"@,
        Err(error) => "Error fetching system status: "@ + error@ + "\n"@,
    })
}

/// What `check-module-integrity` shows for the module `module_name` and the
/// result `result` of its check.
pub open spec fn integrity_text(module_name: Seq<char>, result: Result<bool, String>) -> Seq<
    char,
> {
    ("\nChecking integrity of module: '"@ + module_name + "'...\n"@) + (match result {
        Ok(verified) => if verified {
            "Module '"@ + module_name + "' integrity: VERIFIED\n"@
        } else {
            "Module '"@ + module_name + "' integrity: VERIFICATION FAILED\n"@
        },
        Err(error) => "Error checking module '"@ + module_name + "' integrity: "@ + error@
            + "\n"@,
    })
}

/// One line of `system-integrity-check`: the module, the source, and the
/// verdict.
pub open spec fn check_line_text(
    module_name: Seq<char>,
    manifest: Seq<char>,
    result: Result<bool, String>,
) -> Seq<char> {
    ("  Checking '"@ + module_name + "' (source: "@ + manifest + ")... "@) + (match result {
        Ok(verified) => if verified {
            "VERIFIED\n"@
        } else {
            "FAILED\n"@
        },
        Err(error) => "ERROR ("@ + error@ + ")\n"@,
    })
}

/// One line of the check that the shell makes when it starts.
pub open spec fn core_line_text(module_name: Seq<char>, result: Result<bool, String>) -> Seq<
    char,
> {
    match result {
        Ok(verified) => if verified {
            "  Core module '"@ + module_name + "' integrity: VERIFIED internally.\n"@
        } else {
            "  Core module '"@ + module_name + "' integrity: VERIFICATION FAILED internally.\n"@
        },
        Err(error) => "  Error checking core module '"@ + module_name + "' integrity: "@ + error@
            + "\n"@,
    }
}

/// What `init-npu` shows for the result `result` of the call.
pub open spec fn npu_text(result: Result<String, String>) -> Seq<char> {
    "\nInitializing NPU...\n"@ + (match result {
        Ok(status) => "NPU Status: "@ + status@ + "\n"@,
        Err(error) => "Error initializing NPU: "@ + error@ + "\n"@,
    })
}

/// The entries of an emotional map, one to a line.
pub open spec fn entry_lines(entries: Seq<Seq<char>>) -> Seq<char>
    decreases entries.len(),
{
    if entries.len() == 0 {
        Seq::empty()
    } else {
        entry_lines(entries.drop_last()) + ("  - "@ + entries.last() + "\n"@)
    }
}

/// What `map-emotion` shows for the result `result` of the call.
pub open spec fn emotional_map_text(result: Result<Vec<String>, String>) -> Seq<char> {
    "\nFetching emotional map from Tensor Field...\n"@ + (match result {
        Ok(entries) => "Current Emotional Map in Tensor Field:\n"@ + (if entries@.len() == 0 {
            "  Emotional map is currently clear.\n"@
        } else {
            entry_lines(texts(entries@))
        }),
        Err(error) => "Error fetching emotional map: "@ + error@ + "\n"@,
    })
}

/// What `collapse-truth` shows for its three arguments and the result
/// `result` of the call.
pub open spec fn collapse_text(
    emotion: Seq<char>,
    mode: Seq<char>,
    time: Seq<char>,
    result: Result<String, String>,
) -> Seq<char> {
    ("\nAttempting to collapse truth waveform for emotion '"@ + emotion + "', mode '"@ + mode
        + "', time '"@ + time + "'...\n"@) + (match result {
        Ok(node) => "Tensor Waveform Collapse Result: '"@ + node@ + "'\n"@,
        Err(error) => "Error during truth collapse: "@ + error@ + "\n"@,
    })
}

/// What `run-onnx-test` shows for its two arguments and the result `result`
/// of the call.
pub open spec fn onnx_text(
    model_path: Seq<char>,
    input_info: Seq<char>,
    result: Result<TensorData, String>,
) -> Seq<char> {
    ("\nAttempting to run ONNX model test for model: '"@ + model_path + "' with input: '"@
        + input_info + "'...\n"@) + (match result {
        Ok(output) => "ONNX Model Test Result: '"@ + output.info@ + "'\n"@,
        Err(error) => "Error running ONNX model test: "@ + error@ + "\n"@,
    })
}

/// What `system-integrity-check` shows for the results of its six checks, in
/// the order in which it makes them.
pub open spec fn sweep_text(
    core: Result<bool, String>,
    driver: Result<bool, String>,
    interface: Result<bool, String>,
    engine: Result<bool, String>,
    ui: Result<bool, String>,
    missing: Result<bool, String>,
) -> Seq<char> {
    "\nPerforming System Integrity Check...\n"@ + "\nInternal Manifest Checks:\n"@
        + check_line_text("SoulOS_Core"@, INTERNAL_SOURCE@, core) + check_line_text(
        "TensorMemoryDriver"@,
        INTERNAL_SOURCE@,
        driver,
    ) + check_line_text("RustHAL_Interface"@, INTERNAL_SOURCE@, interface)
        + "\nGitHub Blockchain Ledger (Simulated) Checks:\n"@ + check_line_text(
        "EmotionalResonanceEngine"@,
        LEDGER_SOURCE@,
        engine,
    ) + check_line_text("UserInterfaceModule"@, LEDGER_SOURCE@, ui) + check_line_text(
        "NonExistentModule"@,
        LEDGER_SOURCE@,
        missing,
    )
}

/// What the shell shows of the status call when it starts.
pub open spec fn boot_status_text(result: Result<String, String>) -> Seq<char> {
    "\nFetching initial system status...\n"@ + (match result {
        Ok(status) => "System Status: "@ + status@ + "\n"@,
        Err(error) => "Failed to get status: "@ + error@ + "\n"@,
    })
}

/// What the shell shows of the NPU call when it starts.
pub open spec fn boot_npu_text(result: Result<String, String>) -> Seq<char> {
    "\nAttempting to initialize NPU...\n"@ + (match result {
        Ok(status) => "NPU Status: "@ + status@ + "\n"@,
        Err(error) => "Failed to initialize NPU: "@ + error@ + "\n"@,
    })
}

/// What the shell shows when it starts, for the results of its three checks,
/// of the status call and of the NPU call.
pub open spec fn boot_text(
    core: Result<bool, String>,
    driver: Result<bool, String>,
    interface: Result<bool, String>,
    status: Result<String, String>,
    npu: Result<String, String>,
) -> Seq<char> {
    BANNER@ + "\nPerforming initial system integrity check...\n"@ + core_line_text(
        "SoulOS_Core"@,
        core,
    ) + core_line_text("TensorMemoryDriver"@, driver) + core_line_text(
        "RustHAL_Interface"@,
        interface,
    ) + boot_status_text(status) + boot_npu_text(npu)
        + "\nSystem Initialized. Type 'help' for available commands.\n"@
}

/// A reading of the clock, on a line of its own.
pub fn clock_report(now: &str) -> (out: String)
    ensures
        out@ == clock_text(now@),
{
    join(now, "\n")
}

/// The text of `status` and `mem` for the result of the status call.
pub fn status_report(result: &Result<String, String>) -> (out: String)
    ensures
        out@ == status_text(*result),
{
    let outcome = match result {
        Ok(status) => enclose("System Status: ", status.as_str(), "\n"),
        Err(error) => enclose("Error fetching system status: ", error.as_str(), "\n"),
    };
    join("\nFetching system status...\n", outcome.as_str())
}

/// The text of `check-module-integrity` for a module and the result of its
/// check.
pub fn integrity_report(module_name: &str, result: &Result<bool, String>) -> (out: String)
    ensures
        out@ == integrity_text(module_name@, *result),
{
    let outcome = match result {
        Ok(verified) => {
            if *verified {
                enclose("Module '", module_name, "' integrity: VERIFIED\n")
            } else {
                enclose("Module '", module_name, "' integrity: VERIFICATION FAILED\n")
            }
        },
        Err(error) => {
            let mut line = enclose("Error checking module '", module_name, "' integrity: ");
            line.append(error.as_str());
            line.append("\n");
            line
        },
    };
    let heading = enclose("\nChecking integrity of module: '", module_name, "'...\n");
    join(heading.as_str(), outcome.as_str())
}

/// One line of `system-integrity-check`.
pub fn check_line(module_name: &str, manifest: &str, result: &Result<bool, String>) -> (out:
    String)
    ensures
        out@ == check_line_text(module_name@, manifest@, *result),
{
    let verdict = match result {
        Ok(verified) => {
            if *verified {
                "VERIFIED\n".to_owned()
            } else {
                "FAILED\n".to_owned()
            }
        },
        Err(error) => enclose("ERROR (", error.as_str(), ")\n"),
    };
    let mut heading = enclose("  Checking '", module_name, "' (source: ");
    heading.append(manifest);
    heading.append(")... ");
    join(heading.as_str(), verdict.as_str())
}

/// One line of the check that the shell makes when it starts.
pub fn core_line(module_name: &str, result: &Result<bool, String>) -> (out: String)
    ensures
        out@ == core_line_text(module_name@, *result),
{
    match result {
        Ok(verified) => {
            if *verified {
                enclose("  Core module '", module_name, "' integrity: VERIFIED internally.\n")
            } else {
                enclose(
                    "  Core module '",
                    module_name,
                    "' integrity: VERIFICATION FAILED internally.\n",
                )
            }
        },
        Err(error) => {
            let mut line = enclose(
                "  Error checking core module '",
                module_name,
                "' integrity: ",
            );
            line.append(error.as_str());
            line.append("\n");
            line
        },
    }
}

/// The text of `init-npu` for the result of the call.
pub fn npu_report(result: &Result<String, String>) -> (out: String)
    ensures
        out@ == npu_text(*result),
{
    let outcome = match result {
        Ok(status) => enclose("NPU Status: ", status.as_str(), "\n"),
        Err(error) => enclose("Error initializing NPU: ", error.as_str(), "\n"),
    };
    join("\nInitializing NPU...\n", outcome.as_str())
}

/// The text of `map-emotion` for the result of the call.
pub fn emotional_map_report(result: &Result<Vec<String>, String>) -> (out: String)
    ensures
        out@ == emotional_map_text(*result),
{
    let outcome = match result {
        Ok(entries) => {
            let listing = if entries.len() == 0 {
                "  Emotional map is currently clear.\n".to_owned()
            } else {
                let mut lines = String::new();
                let mut i: usize = 0;
                assert(texts(entries@).take(0) =~= Seq::<Seq<char>>::empty());
                while i < entries.len()
                    invariant
                        i <= entries.len(),
                        lines@ == entry_lines(texts(entries@).take(i as int)),
                    decreases entries.len() - i,
                {
                    let line = enclose("  - ", entries[i].as_str(), "\n");
                    proof {
                        let upto = texts(entries@).take(i + 1);
                        assert(upto.drop_last() =~= texts(entries@).take(i as int));
                        assert(upto.last() == entries@[i as int]@);
                    }
                    lines.append(line.as_str());
                    i = i + 1;
                }
                assert(texts(entries@).take(entries.len() as int) =~= texts(entries@));
                lines
            };
            join("Current Emotional Map in Tensor Field:\n", listing.as_str())
        },
        Err(error) => enclose("Error fetching emotional map: ", error.as_str(), "\n"),
    };
    join("\nFetching emotional map from Tensor Field...\n", outcome.as_str())
}

/// The text of `collapse-truth` for its arguments and the result of the call.
pub fn collapse_report(
    emotion: &str,
    mode: &str,
    time: &str,
    result: &Result<String, String>,
) -> (out: String)
    ensures
        out@ == collapse_text(emotion@, mode@, time@, *result),
{
    let outcome = match result {
        Ok(node) => enclose("Tensor Waveform Collapse Result: '", node.as_str(), "'\n"),
        Err(error) => enclose("Error during truth collapse: ", error.as_str(), "\n"),
    };
    let mut heading = enclose(
        "\nAttempting to collapse truth waveform for emotion '",
        emotion,
        "', mode '",
    );
    heading.append(mode);
    heading.append("', time '");
    heading.append(time);
    heading.append("'...\n");
    join(heading.as_str(), outcome.as_str())
}

/// The text of `run-onnx-test` for its arguments and the result of the call.
pub fn onnx_report(
    model_path: &str,
    input_info: &str,
    result: &Result<TensorData, String>,
) -> (out: String)
    ensures
        out@ == onnx_text(model_path@, input_info@, *result),
{
    let outcome = match result {
        Ok(output) => enclose("ONNX Model Test Result: '", output.info.as_str(), "'\n"),
        Err(error) => enclose("Error running ONNX model test: ", error.as_str(), "\n"),
    };
    let mut heading = enclose(
        "\nAttempting to run ONNX model test for model: '",
        model_path,
        "' with input: '",
    );
    heading.append(input_info);
    heading.append("'...\n");
    join(heading.as_str(), outcome.as_str())
}

/// The text of the status call when the shell starts.
pub fn boot_status_report(result: &Result<String, String>) -> (out: String)
    ensures
        out@ == boot_status_text(*result),
{
    let outcome = match result {
        Ok(status) => enclose("System Status: ", status.as_str(), "\n"),
        Err(error) => enclose("Failed to get status: ", error.as_str(), "\n"),
    };
    join("\nFetching initial system status...\n", outcome.as_str())
}

/// The text of the NPU call when the shell starts.
pub fn boot_npu_report(result: &Result<String, String>) -> (out: String)
    ensures
        out@ == boot_npu_text(*result),
{
    let outcome = match result {
        Ok(status) => enclose("NPU Status: ", status.as_str(), "\n"),
        Err(error) => enclose("Failed to initialize NPU: ", error.as_str(), "\n"),
    };
    join("\nAttempting to initialize NPU...\n", outcome.as_str())
}

/// `line` is what the start of the shell shows of `module_name` for some
/// result that `hal` allows of the check against `manifest`.
pub open spec fn is_core_line<H: HalTrait>(
    hal: &H,
    module_name: Seq<char>,
    manifest: Seq<char>,
    line: Seq<char>,
) -> bool {
    exists|result: Result<bool, String>| #[trigger]
        hal.signature_spec(module_name, manifest, result) && line == core_line_text(
            module_name,
            result,
        )
}

/// `line` is what `system-integrity-check` shows of `module_name` for some
/// result that `hal` allows of the check against `manifest`.
pub open spec fn is_check_line<H: HalTrait>(
    hal: &H,
    module_name: Seq<char>,
    manifest: Seq<char>,
    line: Seq<char>,
) -> bool {
    exists|result: Result<bool, String>| #[trigger]
        hal.signature_spec(module_name, manifest, result) && line == check_line_text(
            module_name,
            manifest,
            result,
        )
}

/// Checks `module_name` against `manifest` and words the result as the shell
/// does when it starts.
pub fn module_integrity_status<H: HalTrait>(
    hal: &H,
    module_name: &str,
    manifest: &str,
) -> (out: String)
    ensures
        is_core_line(hal, module_name@, manifest@, out@),
{
    let result = hal.verify_module_signature(module_name, manifest);
    core_line(module_name, &result)
}

/// Checks `module_name` against `manifest` and words the result as
/// `system-integrity-check` does.
pub fn module_integrity_status_for_command<H: HalTrait>(
    hal: &H,
    module_name: &str,
    manifest: &str,
) -> (out: String)
    ensures
        is_check_line(hal, module_name@, manifest@, out@),
{
    let result = hal.verify_module_signature(module_name, manifest);
    check_line(module_name, manifest, &result)
}

/// `out` is what `system-integrity-check` shows for some six results that
/// `hal` allows of its six checks: three against the internal manifest, then
/// three against the ledger.
pub open spec fn is_sweep<H: HalTrait>(hal: &H, out: Seq<char>) -> bool {
    exists|
        core: Result<bool, String>,
        driver: Result<bool, String>,
        interface: Result<bool, String>,
        engine: Result<bool, String>,
        ui: Result<bool, String>,
        missing: Result<bool, String>,
    |
        {
            &&& hal.signature_spec("SoulOS_Core"@, INTERNAL_SOURCE@, core)
            &&& hal.signature_spec("TensorMemoryDriver"@, INTERNAL_SOURCE@, driver)
            &&& hal.signature_spec("RustHAL_Interface"@, INTERNAL_SOURCE@, interface)
            &&& hal.signature_spec("EmotionalResonanceEngine"@, LEDGER_SOURCE@, engine)
            &&& hal.signature_spec("UserInterfaceModule"@, LEDGER_SOURCE@, ui)
            &&& hal.signature_spec("NonExistentModule"@, LEDGER_SOURCE@, missing)
            &&& out == #[trigger] sweep_text(core, driver, interface, engine, ui, missing)
        }
}

/// `out` is what the shell shows when it starts, for some results that `hal`
/// allows of the three internal checks, the status call and the NPU call.
pub open spec fn is_boot<H: HalTrait>(hal: &H, out: Seq<char>) -> bool {
    exists|
        core: Result<bool, String>,
        driver: Result<bool, String>,
        interface: Result<bool, String>,
        status: Result<String, String>,
        npu: Result<String, String>,
    |
        {
            &&& hal.signature_spec("SoulOS_Core"@, INTERNAL_SOURCE@, core)
            &&& hal.signature_spec("TensorMemoryDriver"@, INTERNAL_SOURCE@, driver)
            &&& hal.signature_spec("RustHAL_Interface"@, INTERNAL_SOURCE@, interface)
            &&& hal.status_spec(status)
            &&& hal.npu_spec(npu)
            &&& out == #[trigger] boot_text(core, driver, interface, status, npu)
        }
}

/// `out` is a date, whichever, on a line of its own.
pub open spec fn is_date_report(out: Seq<char>) -> bool {
    exists|now: Seq<char>| is_calendar_date(now) && out == #[trigger] clock_text(now)
}

/// `out` is a time of day, whichever, on a line of its own.
pub open spec fn is_time_report(out: Seq<char>) -> bool {
    exists|now: Seq<char>| is_time_of_day(now) && out == #[trigger] clock_text(now)
}

/// `out` is what `status` and `mem` show for some result that `hal` allows of
/// the status call.
pub open spec fn is_status_report<H: HalTrait>(hal: &H, out: Seq<char>) -> bool {
    exists|result: Result<String, String>| #[trigger]
        hal.status_spec(result) && out == status_text(result)
}

/// `out` is what `check-module-integrity` shows of `module_name` for some
/// result that `hal` allows of the check against the ledger.
pub open spec fn is_integrity_report<H: HalTrait>(
    hal: &H,
    module_name: Seq<char>,
    out: Seq<char>,
) -> bool {
    exists|result: Result<bool, String>| #[trigger]
        hal.signature_spec(module_name, LEDGER_SOURCE@, result) && out == integrity_text(
            module_name,
            result,
        )
}

/// `out` is what `init-npu` shows for some result that `hal` allows of the
/// NPU call.
pub open spec fn is_npu_report<H: HalTrait>(hal: &H, out: Seq<char>) -> bool {
    exists|result: Result<String, String>| #[trigger]
        hal.npu_spec(result) && out == npu_text(result)
}

/// `out` is what `map-emotion` shows for some result that `hal` allows of the
/// map call.
pub open spec fn is_emotional_map_report<H: HalTrait>(hal: &H, out: Seq<char>) -> bool {
    exists|result: Result<Vec<String>, String>| #[trigger]
        hal.emotional_map_spec(result) && out == emotional_map_text(result)
}

/// `out` is what `collapse-truth` shows of its three arguments for some
/// result that `hal` allows of the call with them.
pub open spec fn is_collapse_report<H: HalTrait>(
    hal: &H,
    emotion: Seq<char>,
    mode: Seq<char>,
    time: Seq<char>,
    out: Seq<char>,
) -> bool {
    exists|result: Result<String, String>| #[trigger]
        hal.collapse_spec(emotion, mode, time, result) && out == collapse_text(
            emotion,
            mode,
            time,
            result,
        )
}

/// `out` is what `run-onnx-test` shows of its two arguments for some result
/// that `hal` allows of the call with them.
pub open spec fn is_onnx_report<H: HalTrait>(
    hal: &H,
    model_path: Seq<char>,
    input_info: Seq<char>,
    out: Seq<char>,
) -> bool {
    exists|result: Result<TensorData, String>| #[trigger]
        hal.onnx_spec(model_path, input_info, result) && out == onnx_text(
            model_path,
            input_info,
            result,
        )
}

/// `out` is what `command` shows on a shell that drives `hal`.
///
/// A command that asks nothing of the HAL or the clock has one text. Of a
/// command that calls the HAL, `out` is the text for some result that `hal`
/// allows of that call, with the arguments that the command hands on. Of
/// `date` and `time`, `out` is a line with a date or a time of day on it,
/// whichever the clock reads.
pub open spec fn command_output<H: HalTrait>(
    hal: &H,
    command: CommandView,
    out: Seq<char>,
) -> bool {
    match command {
        CommandView::Ver => out == VERSION_LINE@,
        CommandView::Date => is_date_report(out),
        CommandView::Time => is_time_report(out),
        CommandView::Cls | CommandView::Clear => out == CLEAR_SCREEN@,
        CommandView::Ls | CommandView::Dir => out == LISTING_LINE@,
        CommandView::Status | CommandView::Mem => is_status_report(hal, out),
        CommandView::CheckModuleIntegrity { module_name: Some(name) } => is_integrity_report(
            hal,
            name,
            out,
        ),
        CommandView::CheckModuleIntegrity { module_name: None } => out == USAGE_LINE@,
        CommandView::SystemIntegrityCheck => is_sweep(hal, out),
        CommandView::Ping => out == PONG_LINE@,
        CommandView::InitNpu => is_npu_report(hal, out),
        CommandView::MapEmotion => is_emotional_map_report(hal, out),
        CommandView::CollapseTruth { emotion, mode, time } => is_collapse_report(
            hal,
            emotion,
            mode,
            time,
            out,
        ),
        CommandView::RunOnnxTest { model_path, input_info } => is_onnx_report(
            hal,
            model_path,
            input_info,
            out,
        ),
    }
}

/// Makes the six checks of `system-integrity-check` and returns what the
/// command shows.
pub fn system_integrity_check<H: HalTrait>(hal: &H) -> (out: String)
    ensures
        is_sweep(hal, out@),
{
    let core = module_integrity_status_for_command(hal, "SoulOS_Core", INTERNAL_SOURCE);
    let driver = module_integrity_status_for_command(hal, "TensorMemoryDriver", INTERNAL_SOURCE);
    let interface = module_integrity_status_for_command(hal, "RustHAL_Interface", INTERNAL_SOURCE);
    let engine = module_integrity_status_for_command(
        hal,
        "EmotionalResonanceEngine",
        LEDGER_SOURCE,
    );
    let ui = module_integrity_status_for_command(hal, "UserInterfaceModule", LEDGER_SOURCE);
    let missing = module_integrity_status_for_command(hal, "NonExistentModule", LEDGER_SOURCE);
    let mut out = "\nPerforming System Integrity Check...\n".to_owned();
    out.append("\nInternal Manifest Checks:\n");
    out.append(core.as_str());
    out.append(driver.as_str());
    out.append(interface.as_str());
    out.append("\nGitHub Blockchain Ledger (Simulated) Checks:\n");
    out.append(engine.as_str());
    out.append(ui.as_str());
    out.append(missing.as_str());
    proof {
        let a = choose|r: Result<bool, String>| #[trigger]
            hal.signature_spec("SoulOS_Core"@, INTERNAL_SOURCE@, r) && core@ == check_line_text(
                "SoulOS_Core"@,
                INTERNAL_SOURCE@,
                r,
            );
        let b = choose|r: Result<bool, String>| #[trigger]
            hal.signature_spec("TensorMemoryDriver"@, INTERNAL_SOURCE@, r) && driver@
                == check_line_text("TensorMemoryDriver"@, INTERNAL_SOURCE@, r);
        let c = choose|r: Result<bool, String>| #[trigger]
            hal.signature_spec("RustHAL_Interface"@, INTERNAL_SOURCE@, r) && interface@
                == check_line_text("RustHAL_Interface"@, INTERNAL_SOURCE@, r);
        let d = choose|r: Result<bool, String>| #[trigger]
            hal.signature_spec("EmotionalResonanceEngine"@, LEDGER_SOURCE@, r) && engine@
                == check_line_text("EmotionalResonanceEngine"@, LEDGER_SOURCE@, r);
        let e = choose|r: Result<bool, String>| #[trigger]
            hal.signature_spec("UserInterfaceModule"@, LEDGER_SOURCE@, r) && ui@
                == check_line_text("UserInterfaceModule"@, LEDGER_SOURCE@, r);
        let f = choose|r: Result<bool, String>| #[trigger]
            hal.signature_spec("NonExistentModule"@, LEDGER_SOURCE@, r) && missing@
                == check_line_text("NonExistentModule"@, LEDGER_SOURCE@, r);
        assert(out@ == sweep_text(a, b, c, d, e, f));
    }
    out
}

/// Carries out `command` on `hal` and returns what the command shows.
pub fn handle_command<H: HalTrait>(command: Command, hal: &H) -> (out: String)
    ensures
        command_output(hal, command@, out@),
{
    match command {
        Command::Ver => VERSION_LINE.to_owned(),
        Command::Date => {
            let now = local_now(DATE_PATTERN);
            let out = clock_report(now.as_str());
            assert(is_calendar_date(now@) && out@ == clock_text(now@));
            out
        },
        Command::Time => {
            let now = local_now(TIME_PATTERN);
            let out = clock_report(now.as_str());
            assert(is_time_of_day(now@) && out@ == clock_text(now@));
            out
        },
        Command::Cls | Command::Clear => CLEAR_SCREEN.to_owned(),
        Command::Ls | Command::Dir => LISTING_LINE.to_owned(),
        Command::Status | Command::Mem => {
            let result = hal.get_system_status();
            let out = status_report(&result);
            assert(hal.status_spec(result) && out@ == status_text(result));
            out
        },
        Command::CheckModuleIntegrity { module_name } => {
            match module_name {
                Some(name) => {
                    let result = hal.verify_module_signature(name.as_str(), LEDGER_SOURCE);
                    let out = integrity_report(name.as_str(), &result);
                    assert(is_integrity_report(hal, name@, out@));
                    out
                },
                None => USAGE_LINE.to_owned(),
            }
        },
        Command::SystemIntegrityCheck => system_integrity_check(hal),
        Command::Ping => PONG_LINE.to_owned(),
        Command::InitNpu => {
            let result = hal.initialize_npu();
            let out = npu_report(&result);
            assert(hal.npu_spec(result) && out@ == npu_text(result));
            out
        },
        Command::MapEmotion => {
            let result = hal.get_emotional_map();
            let out = emotional_map_report(&result);
            assert(hal.emotional_map_spec(result) && out@ == emotional_map_text(result));
            out
        },
        Command::CollapseTruth { emotion, mode, time } => {
            let result = hal.collapse_truth_waveform(
                emotion.as_str(),
                mode.as_str(),
                time.as_str(),
            );
            let out = collapse_report(emotion.as_str(), mode.as_str(), time.as_str(), &result);
            assert(is_collapse_report(hal, emotion@, mode@, time@, out@));
            out
        },
        Command::RunOnnxTest { model_path, input_info } => {
            let ghost given = input_info@;
            let tensor_input = TensorData { info: input_info };
            let result = hal.run_onnx_model(model_path.as_str(), &tensor_input);
            let out = onnx_report(model_path.as_str(), tensor_input.info.as_str(), &result);
            assert(is_onnx_report(hal, model_path@, given, out@));
            out
        },
    }
}

/// Runs the start of the shell on `hal`: the banner, three checks against the
/// internal manifest, the status call and the NPU call. A call that fails is
/// reported like one that succeeds, and the next is made.
pub fn boot_sequence<H: HalTrait>(hal: &H) -> (out: String)
    ensures
        is_boot(hal, out@),
{
    let core = module_integrity_status(hal, "SoulOS_Core", INTERNAL_SOURCE);
    let driver = module_integrity_status(hal, "TensorMemoryDriver", INTERNAL_SOURCE);
    let interface = module_integrity_status(hal, "RustHAL_Interface", INTERNAL_SOURCE);
    let status = hal.get_system_status();
    let status_part = boot_status_report(&status);
    let npu = hal.initialize_npu();
    let npu_part = boot_npu_report(&npu);
    let mut out = BANNER.to_owned();
    out.append("\nPerforming initial system integrity check...\n");
    out.append(core.as_str());
    out.append(driver.as_str());
    out.append(interface.as_str());
    out.append(status_part.as_str());
    out.append(npu_part.as_str());
    out.append("\nSystem Initialized. Type 'help' for available commands.\n");
    proof {
        let a = choose|r: Result<bool, String>| #[trigger]
            hal.signature_spec("SoulOS_Core"@, INTERNAL_SOURCE@, r) && core@ == core_line_text(
                "SoulOS_Core"@,
                r,
            );
        let b = choose|r: Result<bool, String>| #[trigger]
            hal.signature_spec("TensorMemoryDriver"@, INTERNAL_SOURCE@, r) && driver@
                == core_line_text("TensorMemoryDriver"@, r);
        let c = choose|r: Result<bool, String>| #[trigger]
            hal.signature_spec("RustHAL_Interface"@, INTERNAL_SOURCE@, r) && interface@
                == core_line_text("RustHAL_Interface"@, r);
        assert(out@ == boot_text(a, b, c, status, npu));
    }
    out
}

} // verus!
