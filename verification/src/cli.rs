//! The command line: which command a selector names, and what is said when
//! a command fails.

use crate::notice::{framed, APP_NOT_FOUND};
use vstd::prelude::*;
use vstd::string::*;

verus! {

/// Said when no command was selected, or none that exists.
pub const NO_COMMAND: &'static str =
    "Invalid or no command specified. The command must be passed through the LEDGER_COMMAND env var. Set LEDGER_TESTNET to use the Bitcoin testnet app instead where applicable.";

/// Said when the app to install is on the device already.
pub const ALREADY_INSTALLED: &'static str =
    "Bitcoin app already installed. Use the update command to update it.";

/// What the command line can be asked to do.
#[derive(Debug, Clone, Copy, PartialEq, Eq, Structural)]
pub enum Command {
    GetInfo,
    GenuineCheck,
    InstallMainApp,
    UpdateMainApp,
    OpenMainApp,
    InstallTestApp,
    UpdateTestApp,
    OpenTestApp,
    UpdateFirmware,
}

impl Command {
    /// The command that `selector` names. Where a command exists for both
    /// networks, `is_testnet` chooses between them.
    pub open spec fn named(selector: Seq<char>, is_testnet: bool) -> Option<Command> {
        if selector == "getinfo"@ {
            Some(Command::GetInfo)
        } else if selector == "genuinecheck"@ {
            Some(Command::GenuineCheck)
        } else if selector == "installapp"@ {
            Some(
                if is_testnet {
                    Command::InstallTestApp
                } else {
                    Command::InstallMainApp
                },
            )
        } else if selector == "updateapp"@ {
            Some(
                if is_testnet {
                    Command::UpdateTestApp
                } else {
                    Command::UpdateMainApp
                },
            )
        } else if selector == "openapp"@ {
            Some(
                if is_testnet {
                    Command::OpenTestApp
                } else {
                    Command::OpenMainApp
                },
            )
        } else if selector == "updatefirm"@ {
            Some(Command::UpdateFirmware)
        } else {
            None
        }
    }

    /// Whether the command line knows how to carry the command out.
    pub open spec fn implemented(self) -> bool {
        !(self is UpdateMainApp || self is UpdateTestApp || self is UpdateFirmware)
    }

    /// Reads the command off the selector and the testnet flag. There is a
    /// command if and only if there is a selector and it names one.
    pub fn get(selector: Option<&str>, is_testnet: bool) -> (command: Option<Command>)
        ensures
            command == match selector {
                Some(text) => Command::named(text@, is_testnet),
                None => None,
            },
    {
        let cmd_str = match selector {
            Some(text) => String::from_str(text),
            None => {
                return None;
            },
        };
        if cmd_str == String::from_str("getinfo") {
            Some(Command::GetInfo)
        } else if cmd_str == String::from_str("genuinecheck") {
            Some(Command::GenuineCheck)
        } else if cmd_str == String::from_str("installapp") {
            Some(
                if is_testnet {
                    Command::InstallTestApp
                } else {
                    Command::InstallMainApp
                },
            )
        } else if cmd_str == String::from_str("updateapp") {
            Some(
                if is_testnet {
                    Command::UpdateTestApp
                } else {
                    Command::UpdateMainApp
                },
            )
        } else if cmd_str == String::from_str("openapp") {
            Some(
                if is_testnet {
                    Command::OpenTestApp
                } else {
                    Command::OpenMainApp
                },
            )
        } else if cmd_str == String::from_str("updatefirm") {
            Some(Command::UpdateFirmware)
        } else {
            None
        }
    }

    /// Whether the command line knows how to carry the command out. The
    /// updates, of an app or of the firmware, it does not.
    pub fn is_implemented(&self) -> (known: bool)
        ensures
            known == self.implemented(),
    {
        match self {
            Command::UpdateMainApp | Command::UpdateTestApp | Command::UpdateFirmware => false,
            _ => true,
        }
    }
}

/// Why an install failed.
#[derive(Debug)]
pub enum InstallError {
    /// The app is on the device already.
    AlreadyInstalled,
    /// The catalog has no such app for this device.
    AppNotFound,
    /// Anything else, with its cause.
    Other(String),
}

/// Why a command failed. Where the failure came from outside, it holds the
/// cause as text.
#[derive(Debug)]
pub enum CliError {
    /// No command was selected, or none that exists.
    NoCommand,
    /// The transport's library could not be set up.
    Api(String),
    /// No device could be opened.
    Device(String),
    /// The device did not describe itself.
    DeviceInfo(String),
    /// The device did not list its apps.
    Enumeration(String),
    /// The attestation failed.
    Attestation(String),
    /// The install failed.
    Install(InstallError),
    /// The app could not be opened.
    OpenApp(String),
}

/// A `CliError` with its texts as sequences of characters.
pub enum CliErrorView {
    NoCommand,
    Api(Seq<char>),
    Device(Seq<char>),
    DeviceInfo(Seq<char>),
    Enumeration(Seq<char>),
    Attestation(Seq<char>),
    AlreadyInstalled,
    AppNotFound,
    InstallFailed(Seq<char>),
    OpenApp(Seq<char>),
}

impl View for CliError {
    type V = CliErrorView;

    open spec fn view(&self) -> CliErrorView {
        match self {
            CliError::NoCommand => CliErrorView::NoCommand,
            CliError::Api(cause) => CliErrorView::Api(cause@),
            CliError::Device(cause) => CliErrorView::Device(cause@),
            CliError::DeviceInfo(cause) => CliErrorView::DeviceInfo(cause@),
            CliError::Enumeration(cause) => CliErrorView::Enumeration(cause@),
            CliError::Attestation(cause) => CliErrorView::Attestation(cause@),
            CliError::Install(InstallError::AlreadyInstalled) => CliErrorView::AlreadyInstalled,
            CliError::Install(InstallError::AppNotFound) => CliErrorView::AppNotFound,
            CliError::Install(InstallError::Other(cause)) => CliErrorView::InstallFailed(cause@),
            CliError::OpenApp(cause) => CliErrorView::OpenApp(cause@),
        }
    }
}

impl CliErrorView {
    /// The one line that tells the user of the failure.
    pub open spec fn text(self) -> Seq<char> {
        match self {
            CliErrorView::NoCommand => NO_COMMAND@,
            CliErrorView::Api(cause) => "Error initializing HDI api: "@ + cause + "."@,
            CliErrorView::Device(cause) => "Error connecting to Ledger device: "@ + cause + "."@,
            CliErrorView::DeviceInfo(cause) => "Error fetching device info: "@ + cause
                + ". Is the Ledger unlocked?"@,
            CliErrorView::Enumeration(cause) => "Error listing installed applications: "@ + cause
                + "."@,
            CliErrorView::Attestation(cause) => "Error when performing genuine check: "@ + cause,
            CliErrorView::AlreadyInstalled => ALREADY_INSTALLED@,
            CliErrorView::AppNotFound => APP_NOT_FOUND@,
            CliErrorView::InstallFailed(cause) => "Error installing Bitcoin app: "@ + cause + "."@,
            CliErrorView::OpenApp(cause) => "Error opening Bitcoin app: "@ + cause,
        }
    }
}

impl CliError {
    /// The one line that tells the user of the failure.
    pub fn message(&self) -> (text: String)
        ensures
            text@ == self@.text(),
    {
        match self {
            CliError::NoCommand => String::from_str(NO_COMMAND),
            CliError::Api(cause) => framed("Error initializing HDI api: ", cause.as_str(), "."),
            CliError::Device(cause) => framed(
                "Error connecting to Ledger device: ",
                cause.as_str(),
                ".",
            ),
            CliError::DeviceInfo(cause) => framed(
                "Error fetching device info: ",
                cause.as_str(),
                ". Is the Ledger unlocked?",
            ),
            CliError::Enumeration(cause) => framed(
                "Error listing installed applications: ",
                cause.as_str(),
                ".",
            ),
            CliError::Attestation(cause) => String::from_str(
                "Error when performing genuine check: ",
            ).concat(cause.as_str()),
            CliError::Install(InstallError::AlreadyInstalled) => String::from_str(
                ALREADY_INSTALLED,
            ),
            CliError::Install(InstallError::AppNotFound) => String::from_str(APP_NOT_FOUND),
            CliError::Install(InstallError::Other(cause)) => framed(
                "Error installing Bitcoin app: ",
                cause.as_str(),
                ".",
            ),
            CliError::OpenApp(cause) => String::from_str("Error opening Bitcoin app: ").concat(
                cause.as_str(),
            ),
        }
    }
}

/// The status with which the command line ends: zero when the command was
/// carried out, one when it failed.
pub fn exit_code(outcome: &Result<(), CliError>) -> (code: i32)
    ensures
        code == if outcome is Ok {
            0i32
        } else {
            1i32
        },
{
    match outcome {
        Ok(_) => 0,
        Err(_) => 1,
    }
}

} // verus!
