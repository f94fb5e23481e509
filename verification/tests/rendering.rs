//! Tests of the outcome model, the configuration helpers, the progress
//! renderer and the top-level report.

use mount_luks::cli::SubCommand;
use mount_luks::tpm::persistent_handle::PersistentHandle;
use mount_luks::utils::error::AnyReport;
use mount_luks::utils::options::Options;
use mount_luks::utils::options::OptionsError;
use mount_luks::utils::response::to_string;
use mount_luks::utils::response::Response;
use mount_luks::utils::ui::print_error;
use mount_luks::utils::ui::print_step_completed;
use mount_luks::utils::ui::print_step_start;

#[test]
fn to_string_trims_and_collapses_empty() {
    assert_eq!(to_string("  hello world \n"), Some("hello world".to_owned()));
    assert_eq!(to_string("unchanged"), Some("unchanged".to_owned()));
    assert_eq!(to_string("   \t\n  "), None);
    assert_eq!(to_string(""), None);
}

#[test]
fn response_trims_captured_streams() {
    let r = Response::new(false, Some(2), " out \n", "\terr\n");
    assert!(!r.success);
    assert_eq!(r.code, Some(2));
    assert_eq!(r.output.as_deref(), Some("out"));
    assert_eq!(r.error.as_deref(), Some("err"));

    let r = Response::new(true, Some(0), "", "  \n");
    assert!(r.success);
    assert!(r.output.is_none());
    assert!(r.error.is_none());

    let r = Response::from_status(true, None);
    assert!(r.success && r.code.is_none() && r.output.is_none() && r.error.is_none());
}

#[test]
fn mapper_path_is_derived_from_name() {
    let options = Options {
        partition_path: "/dev/sda3".to_owned(),
        mapper_name: "cryptroot".to_owned(),
        mount_path: "/mnt/secure".to_owned(),
        key_path: None,
        tpm_handle: Some(PersistentHandle::from_offset(1)),
        key_prompt: Some(true),
    };
    assert_eq!(options.get_mapper_path(), "/dev/mapper/cryptroot");
}

#[test]
fn options_error_messages() {
    assert_eq!(OptionsError::NoFile.message(), "Options file does not exist");
    assert_eq!(OptionsError::Read.message(), "Unable to read options file");
    assert_eq!(
        OptionsError::Required.message(),
        "Options file is not complete"
    );
}

#[test]
fn step_counter_advances_and_renders() {
    let mut counter: u32 = 0;
    let line = print_step_start(&mut counter, 8, "Checking if root");
    assert_eq!(counter, 1);
    assert_eq!(line, "1/8 | Checking if root");
    let line = print_step_start(&mut counter, 8, "Checking if partition exists");
    assert_eq!(counter, 2);
    assert_eq!(line, "2/8 | Checking if partition exists");
    let mut high: u32 = 11;
    let line = print_step_start(&mut high, 42, "step twelve");
    assert_eq!(line, "12/42 | step twelve");
}

#[test]
fn completion_and_error_markers() {
    assert_eq!(print_step_completed("Access granted"), "  \u{2713} | Access granted");
    assert_eq!(print_error("Unable to continue"), "  \u{2a2f} | Unable to continue");
}

#[test]
fn subcommand_default_and_names() {
    assert_eq!(SubCommand::default(), SubCommand::Mount);
    assert_eq!(SubCommand::Mount.name(), "Mount");
    assert_eq!(SubCommand::Validate.name(), "Validate");
    assert_eq!(SubCommand::SetTpm.name(), "SetTpm");
    assert_eq!(SubCommand::SetLuks.name(), "SetLuks");
}

#[test]
fn any_report_carries_its_text() {
    let report = AnyReport::new("Failed to mount partition".to_owned());
    assert_eq!(report.message(), "Failed to mount partition");
}
