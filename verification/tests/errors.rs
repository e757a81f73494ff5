use ayame::error::on_error;
use ayame::error::Error;
use ayame::error::ErrorKind;
use ayame::error::Failure;
use ayame::error::Handling;
use ayame::error::Report;
use ayame::text::str_eq;

#[test]
fn constructors_set_kind_and_message() {
    assert_eq!(
        Error::input("a"),
        Error { kind: ErrorKind::Input, message: String::from("a") }
    );
    assert_eq!(
        Error::upstream("b"),
        Error { kind: ErrorKind::Upstream, message: String::from("b") }
    );
    assert_eq!(
        Error::platform("c"),
        Error { kind: ErrorKind::Platform, message: String::from("c") }
    );
    assert_eq!(
        Error::internal("d"),
        Error { kind: ErrorKind::Internal, message: String::from("d") }
    );
    assert_eq!(Error::new(ErrorKind::Upstream, "e"), Error::upstream("e"));
}

#[test]
fn only_platform_failures_are_fatal() {
    assert!(ErrorKind::Platform.is_fatal());
    assert!(!ErrorKind::Input.is_fatal());
    assert!(!ErrorKind::Upstream.is_fatal());
    assert!(!ErrorKind::Internal.is_fatal());
}

#[test]
fn each_kind_has_its_report() {
    assert_eq!(ErrorKind::Input.how_reported(), Report::TellUser);
    assert_eq!(ErrorKind::Upstream.how_reported(), Report::ShowNotice);
    assert_eq!(ErrorKind::Platform.how_reported(), Report::Log);
    assert_eq!(ErrorKind::Internal.how_reported(), Report::Log);
}

#[test]
fn command_failures_are_told_or_logged() {
    assert_eq!(on_error(Failure::Command(ErrorKind::Input)), Handling::TellUser);
    assert_eq!(on_error(Failure::Command(ErrorKind::Upstream)), Handling::Log);
    assert_eq!(on_error(Failure::Command(ErrorKind::Platform)), Handling::Log);
    assert_eq!(on_error(Failure::Command(ErrorKind::Internal)), Handling::Log);
    assert_eq!(on_error(Failure::Listener(ErrorKind::Input)), Handling::Log);
    assert_eq!(on_error(Failure::Listener(ErrorKind::Platform)), Handling::Log);
    assert_eq!(on_error(Failure::Framework), Handling::Delegate);
}

#[test]
fn str_eq_compares_whole_texts() {
    assert!(str_eq("", ""));
    assert!(str_eq("mensa", "mensa"));
    assert!(str_eq("Rempartstraße", "Rempartstraße"));
    assert!(!str_eq("mensa", "mensb"));
    assert!(!str_eq("mensa", "mens"));
    assert!(!str_eq("", "a"));
    assert!(!str_eq("Rempartstraße", "Rempartstrasse"));
}
