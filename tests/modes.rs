use sudachi_native::error::{AnalyzerStage, NativeError, Status};
use sudachi_native::mode::SudachiMode;

#[test]
fn codes_select_modes() {
    assert_eq!(SudachiMode::from_code(0).unwrap(), SudachiMode::A);
    assert_eq!(SudachiMode::from_code(1).unwrap(), SudachiMode::B);
    assert_eq!(SudachiMode::from_code(2).unwrap(), SudachiMode::C);
}

#[test]
fn other_codes_are_invalid_arguments() {
    for code in [3u32, 17, u32::MAX] {
        let e = SudachiMode::from_code(code).unwrap_err();
        assert_eq!(e.status, Status::InvalidArg);
        assert_eq!(e.message, "Invalid mode");
    }
}

#[test]
fn code_round_trips() {
    for mode in [SudachiMode::A, SudachiMode::B, SudachiMode::C] {
        assert_eq!(SudachiMode::from_code(mode.code()).unwrap(), mode);
    }
}

#[test]
fn error_with_context() {
    let e = NativeError::with_context("Failed to lock", "poisoned");
    assert_eq!(e.status, Status::GenericFailure);
    assert_eq!(e.message, "Failed to lock: poisoned");
}

#[test]
fn analyzer_stage_messages() {
    assert_eq!(AnalyzerStage::LoadConfig.failure("no file").message, "Failed to load config: no file");
    assert_eq!(
        AnalyzerStage::LoadDictionary.failure("bad magic").message,
        "Failed to create dictionary: bad magic"
    );
    let e = AnalyzerStage::Tokenize.failure("no path");
    assert_eq!(e.status, Status::GenericFailure);
    assert_eq!(e.message, "Tokenization failed: no path");
}
