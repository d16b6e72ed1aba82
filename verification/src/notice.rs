//! The texts that the session puts before the user.

use vstd::prelude::*;
use vstd::string::*;

verus! {

/// Shown while no device answers.
pub const CONNECT_PROMPT: &'static str = "Please connect a device and unlock it...";

/// Shown while the catalog is asked for the latest apps.
pub const QUERYING_CATALOG: &'static str = "Querying latest apps on Ledger API...";

/// Shown when the catalog did not answer.
pub const CATALOG_FAILED: &'static str = "Fail to get latest apps from Ledger API!";

/// Shown while the device is asked for its apps, which the user has to
/// allow on the device.
pub const QUERYING_APPS: &'static str = "Querying installed apps. Please confirm on device.";

/// Shown once the device has listed its apps.
pub const LISTING_APPS: &'static str = "List installed apps...";

/// Shown when an install begins.
pub const DOWNLOADING: &'static str = "Try to download last firmware...";

/// Shown while an install asks the device to describe itself.
pub const FETCHING_DEVICE_INFO: &'static str = "Get device info from API...";

/// Shown when the device did not describe itself to an install.
pub const DEVICE_INFO_FAILED: &'static str = "Fail to fetch device info!";

/// Shown when the catalog has no Bitcoin app for the device.
pub const APP_NOT_FOUND: &'static str = "Could not get info about Bitcoin app.";

/// Shown before the install service is run, which the user has to allow on
/// the device.
pub const ALLOW_MANAGER: &'static str = "Installing, please allow Ledger manager on device...";

/// Shown while the install service runs.
pub const INSTALLING: &'static str = "Install app...";

/// Shown when the install service has put the app on the device.
pub const INSTALLED: &'static str = "Successfully installed the app.";

/// Shown when an attestation finds no device.
pub const CANNOT_CONNECT: &'static str = "Cannot connect to device!";

/// Shown while the device is attested.
pub const CHECKING_GENUINE: &'static str = "Check if device genuine...";

/// `detail` between `before` and `after`.
pub fn framed(before: &str, detail: &str, after: &str) -> (text: String)
    ensures
        text@ == before@ + detail@ + after@,
{
    String::from_str(before).concat(detail).concat(after)
}

/// The text that reports the firmware version of the device that answered.
pub open spec fn device_connected_text(version: Seq<char>) -> Seq<char> {
    "Device connected, version: "@ + version
}

/// The text that reports that the device did not describe itself.
pub open spec fn device_unreachable_text(cause: Seq<char>) -> Seq<char> {
    "Error fetching device info: "@ + cause + ". Is the Ledger unlocked?"@
}

/// The text that reports that the device did not list its apps.
pub open spec fn listing_failed_text(cause: Seq<char>) -> Seq<char> {
    "Error listing installed applications: "@ + cause + "."@
}

/// The text that reports that the installed apps could not be checked.
pub open spec fn check_failed_text(cause: Seq<char>) -> Seq<char> {
    "Cannot check installed apps: "@ + cause
}

/// The text that reports that the catalog could not be asked for the app.
pub open spec fn app_query_failed_text(cause: Seq<char>) -> Seq<char> {
    "Error querying info about Bitcoin app: "@ + cause + "."@
}

/// The text that reports that the install service failed.
pub open spec fn install_failed_text(cause: Seq<char>) -> Seq<char> {
    "Got an error when installing Bitcoin app from Ledger's remote HSM: "@ + cause + "."@
}

/// Writes the text that reports the firmware version of the device that
/// answered.
pub fn device_connected(version: &str) -> (text: String)
    ensures
        text@ == device_connected_text(version@),
{
    String::from_str("Device connected, version: ").concat(version)
}

/// Writes the text that reports that the device did not describe itself.
pub fn device_unreachable(cause: &str) -> (text: String)
    ensures
        text@ == device_unreachable_text(cause@),
{
    framed("Error fetching device info: ", cause, ". Is the Ledger unlocked?")
}

/// Writes the text that reports that the device did not list its apps.
pub fn listing_failed(cause: &str) -> (text: String)
    ensures
        text@ == listing_failed_text(cause@),
{
    framed("Error listing installed applications: ", cause, ".")
}

/// Writes the text that reports that the installed apps could not be
/// checked.
pub fn check_failed(cause: &str) -> (text: String)
    ensures
        text@ == check_failed_text(cause@),
{
    String::from_str("Cannot check installed apps: ").concat(cause)
}

/// Writes the text that reports that the catalog could not be asked for the
/// app.
pub fn app_query_failed(cause: &str) -> (text: String)
    ensures
        text@ == app_query_failed_text(cause@),
{
    framed("Error querying info about Bitcoin app: ", cause, ".")
}

/// Writes the text that reports that the install service failed.
pub fn install_failed(cause: &str) -> (text: String)
    ensures
        text@ == install_failed_text(cause@),
{
    framed("Got an error when installing Bitcoin app from Ledger's remote HSM: ", cause, ".")
}

} // verus!
