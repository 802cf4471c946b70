use souldos::command::Command;
use souldos::command::ParseError;
use souldos::hal::HalTrait;
use souldos::hal::MockHal;
use souldos::hal::TensorData;
use souldos::shell::boot_npu_report;
use souldos::shell::boot_sequence;
use souldos::shell::boot_status_report;
use souldos::shell::check_line;
use souldos::shell::clock_report;
use souldos::shell::collapse_report;
use souldos::shell::core_line;
use souldos::shell::emotional_map_report;
use souldos::shell::handle_command;
use souldos::shell::integrity_report;
use souldos::shell::interpret_line;
use souldos::shell::module_integrity_status;
use souldos::shell::module_integrity_status_for_command;
use souldos::shell::npu_report;
use souldos::shell::onnx_report;
use souldos::shell::status_report;
use souldos::shell::system_integrity_check;
use souldos::shell::LineAction;
use souldos::shell::BANNER;
use souldos::shell::FAREWELL;
use souldos::shell::PROMPT;

/// A HAL on which every call fails.
struct DeadHal;

impl HalTrait for DeadHal {
    fn get_system_status(&self) -> Result<String, String> {
        Err("status down".to_string())
    }

    fn verify_module_signature(&self, module_name: &str, source: &str) -> Result<bool, String> {
        Err(format!("cannot check {} at {}", module_name, source))
    }

    fn get_emotional_map(&self) -> Result<Vec<String>, String> {
        Err("map down".to_string())
    }

    fn collapse_truth_waveform(&self, _: &str, _: &str, _: &str) -> Result<String, String> {
        Err("collapse down".to_string())
    }

    fn initialize_npu(&self) -> Result<String, String> {
        Err("npu down".to_string())
    }

    fn run_onnx_model(&self, _: &str, _: &TensorData) -> Result<TensorData, String> {
        Err("model down".to_string())
    }
}

/// A HAL that fails every check and has an empty emotional map.
struct QuietHal;

impl HalTrait for QuietHal {
    fn get_system_status(&self) -> Result<String, String> {
        Ok("quiet".to_string())
    }

    fn verify_module_signature(&self, _: &str, _: &str) -> Result<bool, String> {
        Ok(false)
    }

    fn get_emotional_map(&self) -> Result<Vec<String>, String> {
        Ok(Vec::new())
    }

    fn collapse_truth_waveform(&self, emotion: &str, mode: &str, time: &str) -> Result<String, String> {
        Ok(format!("{}/{}/{}", emotion, mode, time))
    }

    fn initialize_npu(&self) -> Result<String, String> {
        Ok("quiet npu".to_string())
    }

    fn run_onnx_model(&self, model_path: &str, inputs: &TensorData) -> Result<TensorData, String> {
        Ok(TensorData { info: format!("{}<-{}", model_path, inputs.info) })
    }
}

fn run_line(line: &str) -> String {
    match interpret_line(line) {
        LineAction::Dispatch(command) => handle_command(command, &MockHal::new()),
        other => panic!("{:?} is no command: {:?}", line, other),
    }
}

#[test]
fn check_module_integrity_of_a_listed_module_prints_verified() {
    assert_eq!(
        run_line("check-module-integrity TensorMemoryDriver"),
        "\nChecking integrity of module: 'TensorMemoryDriver'...\n\
         Module 'TensorMemoryDriver' integrity: VERIFIED\n"
    );
}

#[test]
fn check_module_integrity_of_the_mismatched_module_prints_failed() {
    assert_eq!(
        run_line("check-module-integrity UserInterfaceModule"),
        "\nChecking integrity of module: 'UserInterfaceModule'...\n\
         Module 'UserInterfaceModule' integrity: VERIFICATION FAILED\n"
    );
}

#[test]
fn check_module_integrity_of_an_unlisted_module_prints_the_ledger_error() {
    assert_eq!(
        run_line("check-module-integrity GhostModule"),
        "\nChecking integrity of module: 'GhostModule'...\n\
         Error checking module 'GhostModule' integrity: \
         Module 'GhostModule' not listed in the simulated GitHub Blockchain Ledger.\n"
    );
}

#[test]
fn check_module_integrity_without_a_name_prints_its_usage() {
    assert_eq!(run_line("check-module-integrity"), "Usage: check-module-integrity <module_name>\n");
}

#[test]
fn empty_line_is_skipped() {
    assert_eq!(interpret_line(""), LineAction::Skip);
    assert_eq!(interpret_line("\n"), LineAction::Skip);
    assert_eq!(interpret_line("   \t \r\n"), LineAction::Skip);
    assert_eq!(interpret_line("\u{3000}\u{A0}"), LineAction::Skip);
}

#[test]
fn quit_and_exit_end_the_session() {
    assert_eq!(interpret_line("quit"), LineAction::Quit);
    assert_eq!(interpret_line("exit"), LineAction::Quit);
    assert_eq!(interpret_line("quit\n"), LineAction::Quit);
    assert_eq!(interpret_line("  EXIT  \r\n"), LineAction::Quit);
    assert_eq!(interpret_line("QuIt"), LineAction::Quit);
    assert_eq!(interpret_line("eXit"), LineAction::Quit);
}

#[test]
fn quit_with_more_words_is_no_quit() {
    assert_eq!(interpret_line("quit now"), LineAction::Reject(ParseError::UnknownCommand));
    assert_eq!(interpret_line("exit exit"), LineAction::Reject(ParseError::UnknownCommand));
    assert_eq!(interpret_line("quits"), LineAction::Reject(ParseError::UnknownCommand));
    assert_eq!(interpret_line("qu it"), LineAction::Reject(ParseError::UnknownCommand));
}

#[test]
fn a_command_line_is_dispatched() {
    assert_eq!(interpret_line("ping\n"), LineAction::Dispatch(Command::Ping));
    assert_eq!(interpret_line("  ver  "), LineAction::Dispatch(Command::Ver));
    assert_eq!(
        interpret_line("collapse-truth  joy\tfast now\n"),
        LineAction::Dispatch(Command::CollapseTruth {
            emotion: "joy".to_string(),
            mode: "fast".to_string(),
            time: "now".to_string(),
        })
    );
}

#[test]
fn command_names_are_case_sensitive_on_a_line() {
    assert_eq!(interpret_line("PING"), LineAction::Reject(ParseError::UnknownCommand));
    assert_eq!(interpret_line("Ver"), LineAction::Reject(ParseError::UnknownCommand));
}

#[test]
fn a_malformed_line_is_rejected() {
    assert_eq!(interpret_line("frobnicate"), LineAction::Reject(ParseError::UnknownCommand));
    assert_eq!(interpret_line("help"), LineAction::Reject(ParseError::UnknownCommand));
    assert_eq!(interpret_line("collapse-truth joy"), LineAction::Reject(ParseError::MissingArgument));
    assert_eq!(interpret_line("ping pong"), LineAction::Reject(ParseError::UnexpectedArgument));
    assert_eq!(interpret_line("ver --help"), LineAction::Reject(ParseError::UnexpectedArgument));
}

#[test]
fn fixed_texts() {
    assert_eq!(PROMPT, "\nSoulDOS> ");
    assert_eq!(FAREWELL, "Exiting SoulWare CLI...\n");
    assert_eq!(
        BANNER,
        "***************************************************\n\
         *                                                 *\n\
         *        Welcome to SoulWare CLI (SoulDOS)        *\n\
         *                  Version 0.0.1-alpha            *\n\
         *                                                 *\n\
         ***************************************************\n\
         Initializing System...\n"
    );
}

#[test]
fn ver_prints_the_version() {
    assert_eq!(run_line("ver"), "SoulWare CLI Version 0.0.1-alpha (Handled by 'ver' command)\n");
}

#[test]
fn cls_and_clear_send_the_escape_sequence() {
    assert_eq!(run_line("cls"), "\x1B[2J\x1B[H");
    assert_eq!(run_line("clear"), "\x1B[2J\x1B[H");
}

#[test]
fn ls_and_dir_print_the_placeholder() {
    assert_eq!(run_line("ls"), "Placeholder: Listing directory contents or module status...\n");
    assert_eq!(run_line("dir"), "Placeholder: Listing directory contents or module status...\n");
}

#[test]
fn ping_prints_pong() {
    assert_eq!(run_line("ping"), "pong!\n");
}

#[test]
fn status_and_mem_print_the_status() {
    let expected = "\nFetching system status...\n\
                    System Status: MockStatus: System Optimal, Resonance Field Stable.\n";
    assert_eq!(run_line("status"), expected);
    assert_eq!(run_line("mem"), expected);
}

#[test]
fn init_npu_prints_the_npu_status() {
    assert_eq!(
        run_line("init-npu"),
        "\nInitializing NPU...\n\
         NPU Status: MockHAL: NPU initialized and ready for ONNX models.\n"
    );
}

#[test]
fn map_emotion_lists_the_entries() {
    assert_eq!(
        run_line("map-emotion"),
        "\nFetching emotional map from Tensor Field...\n\
         Current Emotional Map in Tensor Field:\n  - Joy: Bright Cloud\n  - Sadness: Blue Mist\n"
    );
}

#[test]
fn collapse_truth_prints_the_node() {
    assert_eq!(
        run_line("collapse-truth joy fast now"),
        "\nAttempting to collapse truth waveform for emotion 'joy', mode 'fast', time 'now'...\n\
         Tensor Waveform Collapse Result: 'MockHAL: Waveform collapsed to 'MockMemoryNode''\n"
    );
}

#[test]
fn run_onnx_test_prints_the_result() {
    assert_eq!(
        run_line("run-onnx-test net.onnx zeros"),
        "\nAttempting to run ONNX model test for model: 'net.onnx' with input: 'zeros'...\n\
         ONNX Model Test Result: 'MockHAL: ONNX model net.onnx processed with input zeros'\n"
    );
}

#[test]
fn system_integrity_check_prints_its_six_verdicts() {
    let expected = "\nPerforming System Integrity Check...\n\
        \nInternal Manifest Checks:\n  \
        Checking 'SoulOS_Core' (source: InternalManifest)... VERIFIED\n  \
        Checking 'TensorMemoryDriver' (source: InternalManifest)... VERIFIED\n  \
        Checking 'RustHAL_Interface' (source: InternalManifest)... VERIFIED\n\
        \nGitHub Blockchain Ledger (Simulated) Checks:\n  \
        Checking 'EmotionalResonanceEngine' (source: GitHubBlockchainLedger (Simulated))... VERIFIED\n  \
        Checking 'UserInterfaceModule' (source: GitHubBlockchainLedger (Simulated))... FAILED\n  \
        Checking 'NonExistentModule' (source: GitHubBlockchainLedger (Simulated))... \
        ERROR (Module 'NonExistentModule' not listed in the simulated GitHub Blockchain Ledger.)\n";
    assert_eq!(run_line("system-integrity-check"), expected);
    assert_eq!(system_integrity_check(&MockHal::new()), expected);
}

#[test]
fn date_prints_the_date_of_today() {
    let out = run_line("date");
    assert_ne!(out, "%Y-%m-%d\n");
    let chars: Vec<char> = out.chars().collect();
    assert_eq!(chars.len(), 11, "{:?}", out);
    for (i, c) in chars.iter().enumerate() {
        match i {
            4 | 7 => assert_eq!(*c, '-'),
            10 => assert_eq!(*c, '\n'),
            _ => assert!(c.is_ascii_digit(), "{:?}", out),
        }
    }
    let month: u32 = out[5..7].parse().unwrap();
    let day: u32 = out[8..10].parse().unwrap();
    assert!((1..=12).contains(&month));
    assert!((1..=31).contains(&day));
}

#[test]
fn time_prints_the_time_of_day() {
    let out = run_line("time");
    assert_ne!(out, "%H:%M:%S\n");
    let chars: Vec<char> = out.chars().collect();
    assert_eq!(chars.len(), 9, "{:?}", out);
    for (i, c) in chars.iter().enumerate() {
        match i {
            2 | 5 => assert_eq!(*c, ':'),
            8 => assert_eq!(*c, '\n'),
            _ => assert!(c.is_ascii_digit(), "{:?}", out),
        }
    }
    let hour: u32 = out[0..2].parse().unwrap();
    let minute: u32 = out[3..5].parse().unwrap();
    let second: u32 = out[6..8].parse().unwrap();
    assert!(hour <= 23);
    assert!(minute <= 59);
    assert!(second <= 60);
}

#[test]
fn boot_sequence_prints_the_banner_and_the_first_checks() {
    let expected = "***************************************************\n\
        *                                                 *\n\
        *        Welcome to SoulWare CLI (SoulDOS)        *\n\
        *                  Version 0.0.1-alpha            *\n\
        *                                                 *\n\
        ***************************************************\n\
        Initializing System...\n\
        \nPerforming initial system integrity check...\n  \
        Core module 'SoulOS_Core' integrity: VERIFIED internally.\n  \
        Core module 'TensorMemoryDriver' integrity: VERIFIED internally.\n  \
        Core module 'RustHAL_Interface' integrity: VERIFIED internally.\n\
        \nFetching initial system status...\n\
        System Status: MockStatus: System Optimal, Resonance Field Stable.\n\
        \nAttempting to initialize NPU...\n\
        NPU Status: MockHAL: NPU initialized and ready for ONNX models.\n\
        \nSystem Initialized. Type 'help' for available commands.\n";
    assert_eq!(boot_sequence(&MockHal::new()), expected);
}

#[test]
fn boot_sequence_goes_on_after_failures() {
    let expected = format!(
        "{}\nPerforming initial system integrity check...\n  \
         Error checking core module 'SoulOS_Core' integrity: cannot check SoulOS_Core at InternalManifest\n  \
         Error checking core module 'TensorMemoryDriver' integrity: cannot check TensorMemoryDriver at InternalManifest\n  \
         Error checking core module 'RustHAL_Interface' integrity: cannot check RustHAL_Interface at InternalManifest\n\
         \nFetching initial system status...\n\
         Failed to get status: status down\n\
         \nAttempting to initialize NPU...\n\
         Failed to initialize NPU: npu down\n\
         \nSystem Initialized. Type 'help' for available commands.\n",
        BANNER
    );
    assert_eq!(boot_sequence(&DeadHal), expected);
}

#[test]
fn commands_report_the_failures_of_the_hal() {
    let hal = DeadHal;
    assert_eq!(
        handle_command(Command::Status, &hal),
        "\nFetching system status...\nError fetching system status: status down\n"
    );
    assert_eq!(
        handle_command(Command::Mem, &hal),
        "\nFetching system status...\nError fetching system status: status down\n"
    );
    assert_eq!(
        handle_command(Command::InitNpu, &hal),
        "\nInitializing NPU...\nError initializing NPU: npu down\n"
    );
    assert_eq!(
        handle_command(Command::MapEmotion, &hal),
        "\nFetching emotional map from Tensor Field...\nError fetching emotional map: map down\n"
    );
    assert_eq!(
        handle_command(
            Command::CollapseTruth {
                emotion: "a".to_string(),
                mode: "b".to_string(),
                time: "c".to_string(),
            },
            &hal
        ),
        "\nAttempting to collapse truth waveform for emotion 'a', mode 'b', time 'c'...\n\
         Error during truth collapse: collapse down\n"
    );
    assert_eq!(
        handle_command(
            Command::RunOnnxTest { model_path: "m".to_string(), input_info: "i".to_string() },
            &hal
        ),
        "\nAttempting to run ONNX model test for model: 'm' with input: 'i'...\n\
         Error running ONNX model test: model down\n"
    );
    assert_eq!(
        handle_command(Command::CheckModuleIntegrity { module_name: Some("X".to_string()) }, &hal),
        "\nChecking integrity of module: 'X'...\n\
         Error checking module 'X' integrity: cannot check X at GitHubBlockchainLedger (Simulated)\n"
    );
}

#[test]
fn commands_hand_their_arguments_to_the_hal() {
    let hal = QuietHal;
    assert_eq!(
        handle_command(
            Command::CollapseTruth {
                emotion: "joy".to_string(),
                mode: "fast".to_string(),
                time: "now".to_string(),
            },
            &hal
        ),
        "\nAttempting to collapse truth waveform for emotion 'joy', mode 'fast', time 'now'...\n\
         Tensor Waveform Collapse Result: 'joy/fast/now'\n"
    );
    assert_eq!(
        handle_command(
            Command::RunOnnxTest { model_path: "m".to_string(), input_info: "i".to_string() },
            &hal
        ),
        "\nAttempting to run ONNX model test for model: 'm' with input: 'i'...\n\
         ONNX Model Test Result: 'm<-i'\n"
    );
    assert_eq!(
        handle_command(Command::CheckModuleIntegrity { module_name: Some("X".to_string()) }, &hal),
        "\nChecking integrity of module: 'X'...\nModule 'X' integrity: VERIFICATION FAILED\n"
    );
}

#[test]
fn an_empty_emotional_map_is_reported_as_clear() {
    assert_eq!(
        handle_command(Command::MapEmotion, &QuietHal),
        "\nFetching emotional map from Tensor Field...\n\
         Current Emotional Map in Tensor Field:\n  Emotional map is currently clear.\n"
    );
    assert_eq!(
        emotional_map_report(&Ok(Vec::new())),
        "\nFetching emotional map from Tensor Field...\n\
         Current Emotional Map in Tensor Field:\n  Emotional map is currently clear.\n"
    );
}

#[test]
fn emotional_map_report_lists_every_entry() {
    assert_eq!(
        emotional_map_report(&Ok(vec!["a".to_string(), "b".to_string(), "c".to_string()])),
        "\nFetching emotional map from Tensor Field...\n\
         Current Emotional Map in Tensor Field:\n  - a\n  - b\n  - c\n"
    );
    assert_eq!(
        emotional_map_report(&Err("gone".to_string())),
        "\nFetching emotional map from Tensor Field...\nError fetching emotional map: gone\n"
    );
}

#[test]
fn reports_word_each_result() {
    assert_eq!(clock_report("2024-01-02"), "2024-01-02\n");
    assert_eq!(clock_report(""), "\n");
    assert_eq!(
        status_report(&Ok("fine".to_string())),
        "\nFetching system status...\nSystem Status: fine\n"
    );
    assert_eq!(
        status_report(&Err("bad".to_string())),
        "\nFetching system status...\nError fetching system status: bad\n"
    );
    assert_eq!(
        npu_report(&Ok("up".to_string())),
        "\nInitializing NPU...\nNPU Status: up\n"
    );
    assert_eq!(
        npu_report(&Err("off".to_string())),
        "\nInitializing NPU...\nError initializing NPU: off\n"
    );
    assert_eq!(
        boot_status_report(&Ok("fine".to_string())),
        "\nFetching initial system status...\nSystem Status: fine\n"
    );
    assert_eq!(
        boot_status_report(&Err("bad".to_string())),
        "\nFetching initial system status...\nFailed to get status: bad\n"
    );
    assert_eq!(
        boot_npu_report(&Ok("up".to_string())),
        "\nAttempting to initialize NPU...\nNPU Status: up\n"
    );
    assert_eq!(
        boot_npu_report(&Err("off".to_string())),
        "\nAttempting to initialize NPU...\nFailed to initialize NPU: off\n"
    );
    assert_eq!(
        collapse_report("e", "m", "t", &Ok("node".to_string())),
        "\nAttempting to collapse truth waveform for emotion 'e', mode 'm', time 't'...\n\
         Tensor Waveform Collapse Result: 'node'\n"
    );
    assert_eq!(
        onnx_report("p", "i", &Ok(TensorData { info: "out".to_string() })),
        "\nAttempting to run ONNX model test for model: 'p' with input: 'i'...\n\
         ONNX Model Test Result: 'out'\n"
    );
}

#[test]
fn integrity_lines_word_each_verdict() {
    assert_eq!(
        integrity_report("M", &Ok(true)),
        "\nChecking integrity of module: 'M'...\nModule 'M' integrity: VERIFIED\n"
    );
    assert_eq!(
        integrity_report("M", &Ok(false)),
        "\nChecking integrity of module: 'M'...\nModule 'M' integrity: VERIFICATION FAILED\n"
    );
    assert_eq!(
        integrity_report("M", &Err("why".to_string())),
        "\nChecking integrity of module: 'M'...\nError checking module 'M' integrity: why\n"
    );
    assert_eq!(check_line("M", "S", &Ok(true)), "  Checking 'M' (source: S)... VERIFIED\n");
    assert_eq!(check_line("M", "S", &Ok(false)), "  Checking 'M' (source: S)... FAILED\n");
    assert_eq!(
        check_line("M", "S", &Err("why".to_string())),
        "  Checking 'M' (source: S)... ERROR (why)\n"
    );
    assert_eq!(core_line("M", &Ok(true)), "  Core module 'M' integrity: VERIFIED internally.\n");
    assert_eq!(
        core_line("M", &Ok(false)),
        "  Core module 'M' integrity: VERIFICATION FAILED internally.\n"
    );
    assert_eq!(
        core_line("M", &Err("why".to_string())),
        "  Error checking core module 'M' integrity: why\n"
    );
}

#[test]
fn integrity_status_asks_the_hal() {
    let hal = MockHal::new();
    assert_eq!(
        module_integrity_status(&hal, "SoulOS_Core", "InternalManifest"),
        "  Core module 'SoulOS_Core' integrity: VERIFIED internally.\n"
    );
    assert_eq!(
        module_integrity_status(&hal, "UserInterfaceModule", "GitHubBlockchainLedger (Simulated)"),
        "  Core module 'UserInterfaceModule' integrity: VERIFICATION FAILED internally.\n"
    );
    assert_eq!(
        module_integrity_status(&hal, "GhostModule", "InternalManifest"),
        "  Error checking core module 'GhostModule' integrity: \
         Core module 'GhostModule' not recognized for internal check.\n"
    );
    assert_eq!(
        module_integrity_status_for_command(&hal, "SoulOS_Core", "Nowhere"),
        "  Checking 'SoulOS_Core' (source: Nowhere)... ERROR (Unknown signature source: Nowhere)\n"
    );
    assert_eq!(
        module_integrity_status_for_command(&QuietHal, "SoulOS_Core", "InternalManifest"),
        "  Checking 'SoulOS_Core' (source: InternalManifest)... FAILED\n"
    );
}
