use pinmame_tester::control::{default_mech_config, state_action, StateAction};
use pinmame_tester::error::HarnessError;
use pinmame_tester::pinmame::{
    describe_game, on_log_message, status_result, AudioFormat, DmdMode, Game, LogSeverity, PinmameStatus,
};
use pinmame_tester::text::{decimal_string, signed_decimal_string};

#[test]
fn status_codes() {
    assert_eq!(PinmameStatus::from_code(0), Some(PinmameStatus::Success));
    assert_eq!(PinmameStatus::from_code(2), Some(PinmameStatus::GameNotFound));
    assert_eq!(PinmameStatus::from_code(6), Some(PinmameStatus::MechNoInvalid));
    assert_eq!(PinmameStatus::from_code(7), None);
    assert_eq!(status_result(0), Some(Ok(())));
    assert_eq!(status_result(4), Some(Err(PinmameStatus::EmulatorNotRunning)));
    assert_eq!(status_result(99), None);
}

#[test]
fn status_error_kinds() {
    assert_eq!(PinmameStatus::Success.error_kind(), None);
    assert_eq!(PinmameStatus::GameNotFound.error_kind(), Some(HarnessError::NotFound));
    assert_eq!(PinmameStatus::GameAlreadyRunning.error_kind(), Some(HarnessError::StateConflict));
    assert_eq!(PinmameStatus::MechNoInvalid.error_kind(), Some(HarnessError::StateConflict));
}

#[test]
fn describes_game_on_one_line() {
    let game = Game {
        name: "t2_l8".to_string(),
        clone_of: String::new(),
        description: "Terminator 2: Judgment Day (L-8)".to_string(),
        year: "1991".to_string(),
        manufacturer: "Williams".to_string(),
        flags: 1024,
        found: -1,
    };
    assert_eq!(
        describe_game(game),
        "name=t2_l8, description=Terminator 2: Judgment Day (L-8), manufacturer=Williams, year=1991, flags=1024, found=-1"
    );
}

#[test]
fn decimal_notation() {
    assert_eq!(decimal_string(0), "0");
    assert_eq!(decimal_string(4294967295), "4294967295");
    assert_eq!(signed_decimal_string(-2147483648), "-2147483648");
    assert_eq!(signed_decimal_string(42), "42");
}

#[test]
fn error_text_forces_error_severity() {
    assert_eq!(on_log_message(0, "ROM ERROR: checksum"), LogSeverity::Error);
    assert_eq!(on_log_message(1, "trailing ERROR"), LogSeverity::Error);
    assert_eq!(on_log_message(0, "loading roms"), LogSeverity::Debug);
    assert_eq!(on_log_message(1, "error in lower case"), LogSeverity::Info);
    assert_eq!(on_log_message(2, "failed"), LogSeverity::Error);
    assert_eq!(on_log_message(9, "what"), LogSeverity::Unknown);
    assert_eq!(on_log_message(0, "ERRO"), LogSeverity::Debug);
}

#[test]
fn modes_and_formats() {
    assert_eq!(DmdMode::Brightness.code(), 0);
    assert_eq!(DmdMode::Raw.code(), 1);
    assert_eq!(AudioFormat::from_code(0), Ok(AudioFormat::Int16));
    assert_eq!(AudioFormat::from_code(1), Ok(AudioFormat::Float));
    assert_eq!(AudioFormat::from_code(2), Err(HarnessError::ProtocolViolation));
}

#[test]
fn state_zero_exits() {
    assert_eq!(state_action(0), StateAction::Exit);
    assert_eq!(state_action(1), StateAction::ConfigureMech);
    let cfg = default_mech_config();
    assert_eq!(cfg.mech_type, 5);
    assert_eq!(cfg.sol1, 11);
    assert_eq!(cfg.length, 240);
    assert_eq!(cfg.switches.len(), 20);
    assert_eq!(cfg.switches[19].switch_no, 32);
    assert_eq!(cfg.switches[0].end_pos, 5);
}
