use battery_alert::error::hibernate_result;
use battery_alert::error::require_argument;
use battery_alert::error::require_font;
use battery_alert::error::AlertError;
use battery_alert::error::CommandStatus;
use battery_alert::error::ErrorKind;

#[test]
fn missing_argument_is_a_config_error() {
    assert_eq!(require_argument(None), Err(AlertError::MissingArgument));
    assert_eq!(require_argument(Some("Hack".to_string())), Ok("Hack".to_string()));
    assert_eq!(AlertError::MissingArgument.kind(), ErrorKind::Config);
    assert_eq!(AlertError::MissingArgument.message(), "Expected a font file path");
}

#[test]
fn unresolved_font_is_a_config_error() {
    assert_eq!(require_font(None), Err(AlertError::FontNotFound));
    assert_eq!(require_font(Some("/f/Hack.ttf".to_string())), Ok("/f/Hack.ttf".to_string()));
    assert_eq!(AlertError::FontNotFound.kind(), ErrorKind::Config);
    assert_eq!(AlertError::FontNotFound.message(), "No file found for the font");
}

#[test]
fn unreadable_battery_is_an_io_error() {
    assert_eq!(AlertError::BatteryUnreadable.kind(), ErrorKind::Io);
    assert_eq!(AlertError::BatteryUnreadable.message(), "No battery could be read");
}

#[test]
fn hibernation_succeeds_on_exit_code_zero_only() {
    assert_eq!(hibernate_result(CommandStatus::Exited(0)), Ok(()));
    for status in [
        CommandStatus::Exited(1),
        CommandStatus::Exited(-1),
        CommandStatus::Signalled(0),
        CommandStatus::Signalled(9),
        CommandStatus::Unknown,
    ] {
        assert!(!status.is_success());
        assert_eq!(hibernate_result(status), Err(AlertError::HibernateFailed(status)));
        assert_eq!(AlertError::HibernateFailed(status).kind(), ErrorKind::Hibernate);
    }
    assert!(CommandStatus::Exited(0).is_success());
}

#[test]
fn failed_hibernation_says_how_the_command_ended() {
    assert_eq!(
        AlertError::HibernateFailed(CommandStatus::Exited(1)).message(),
        "Failed to hibernate machine: exit status: 1"
    );
    assert_eq!(
        AlertError::HibernateFailed(CommandStatus::Exited(-4)).message(),
        "Failed to hibernate machine: exit status: -4"
    );
    assert_eq!(
        AlertError::HibernateFailed(CommandStatus::Signalled(15)).message(),
        "Failed to hibernate machine: signal: 15"
    );
    assert_eq!(
        AlertError::HibernateFailed(CommandStatus::Unknown).message(),
        "Failed to hibernate machine: unknown status"
    );
    assert_eq!(CommandStatus::Exited(0).text(), "exit status: 0");
}
