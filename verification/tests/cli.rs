use ledger_installer::cli::{exit_code, Command, CliError, InstallError};

#[test]
fn selectors_name_commands() {
    assert_eq!(Command::get(Some("getinfo"), false), Some(Command::GetInfo));
    assert_eq!(Command::get(Some("getinfo"), true), Some(Command::GetInfo));
    assert_eq!(Command::get(Some("genuinecheck"), false), Some(Command::GenuineCheck));
    assert_eq!(Command::get(Some("genuinecheck"), true), Some(Command::GenuineCheck));
    assert_eq!(Command::get(Some("updatefirm"), false), Some(Command::UpdateFirmware));
    assert_eq!(Command::get(Some("updatefirm"), true), Some(Command::UpdateFirmware));
}

#[test]
fn the_testnet_flag_chooses_the_app() {
    assert_eq!(Command::get(Some("installapp"), false), Some(Command::InstallMainApp));
    assert_eq!(Command::get(Some("installapp"), true), Some(Command::InstallTestApp));
    assert_eq!(Command::get(Some("updateapp"), false), Some(Command::UpdateMainApp));
    assert_eq!(Command::get(Some("updateapp"), true), Some(Command::UpdateTestApp));
    assert_eq!(Command::get(Some("openapp"), false), Some(Command::OpenMainApp));
    assert_eq!(Command::get(Some("openapp"), true), Some(Command::OpenTestApp));
}

#[test]
fn anything_else_names_no_command() {
    assert_eq!(Command::get(None, false), None);
    assert_eq!(Command::get(None, true), None);
    assert_eq!(Command::get(Some(""), false), None);
    assert_eq!(Command::get(Some("GetInfo"), false), None);
    assert_eq!(Command::get(Some("getinfo "), false), None);
    assert_eq!(Command::get(Some("install"), true), None);
}

#[test]
fn updates_are_not_implemented() {
    assert!(Command::GetInfo.is_implemented());
    assert!(Command::GenuineCheck.is_implemented());
    assert!(Command::InstallMainApp.is_implemented());
    assert!(Command::InstallTestApp.is_implemented());
    assert!(Command::OpenMainApp.is_implemented());
    assert!(Command::OpenTestApp.is_implemented());
    assert!(!Command::UpdateMainApp.is_implemented());
    assert!(!Command::UpdateTestApp.is_implemented());
    assert!(!Command::UpdateFirmware.is_implemented());
}

#[test]
fn every_failure_has_its_line() {
    assert_eq!(
        CliError::NoCommand.message(),
        "Invalid or no command specified. The command must be passed through the LEDGER_COMMAND env var. Set LEDGER_TESTNET to use the Bitcoin testnet app instead where applicable."
    );
    assert_eq!(
        CliError::Api("no backend".to_string()).message(),
        "Error initializing HDI api: no backend."
    );
    assert_eq!(
        CliError::Device("not found".to_string()).message(),
        "Error connecting to Ledger device: not found."
    );
    assert_eq!(
        CliError::DeviceInfo("timeout".to_string()).message(),
        "Error fetching device info: timeout. Is the Ledger unlocked?"
    );
    assert_eq!(
        CliError::Enumeration("refused".to_string()).message(),
        "Error listing installed applications: refused."
    );
    assert_eq!(
        CliError::Attestation("bad signature".to_string()).message(),
        "Error when performing genuine check: bad signature"
    );
    assert_eq!(
        CliError::OpenApp("locked".to_string()).message(),
        "Error opening Bitcoin app: locked"
    );
}

#[test]
fn every_install_error_has_its_line() {
    assert_eq!(
        CliError::Install(InstallError::AlreadyInstalled).message(),
        "Bitcoin app already installed. Use the update command to update it."
    );
    assert_eq!(
        CliError::Install(InstallError::AppNotFound).message(),
        "Could not get info about Bitcoin app."
    );
    assert_eq!(
        CliError::Install(InstallError::Other("socket closed".to_string())).message(),
        "Error installing Bitcoin app: socket closed."
    );
}

#[test]
fn failure_ends_with_status_one() {
    assert_eq!(exit_code(&Ok(())), 0);
    assert_eq!(exit_code(&Err(CliError::NoCommand)), 1);
    assert_eq!(exit_code(&Err(CliError::Install(InstallError::AppNotFound))), 1);
    assert_eq!(exit_code(&Err(CliError::Device(String::new()))), 1);
}
