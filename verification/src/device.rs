//! What the device and the catalog report, as plain values, and what the
//! session reads out of it.

use crate::version::{installed_version, resolve_installed_version, Model, Version, VersionView};
use vstd::prelude::*;
use vstd::string::*;

verus! {

/// The name under which the device lists the mainnet app.
pub const MAINNET_APP: &'static str = "Bitcoin";

/// The name under which the device lists the testnet app.
pub const TESTNET_APP: &'static str = "Bitcoin Test";

/// The device's own description.
#[derive(Debug)]
pub struct DeviceInfo {
    /// The identifier of the hardware target, as the install service wants it.
    pub target_id: u32,
    /// The firmware version.
    pub version: String,
}

/// A `DeviceInfo` with its text as a sequence of characters.
pub struct DeviceInfoView {
    pub target_id: u32,
    pub version: Seq<char>,
}

impl View for DeviceInfo {
    type V = DeviceInfoView;

    open spec fn view(&self) -> DeviceInfoView {
        DeviceInfoView { target_id: self.target_id, version: self.version@ }
    }
}

/// An app that the device lists as installed.
#[derive(Debug)]
pub struct InstalledApp {
    /// The app's name.
    pub version_name: String,
    /// The firmware path of the installed build.
    pub firmware: String,
}

/// An `InstalledApp` with its texts as sequences of characters.
pub struct InstalledAppView {
    pub version_name: Seq<char>,
    pub firmware: Seq<char>,
}

impl View for InstalledApp {
    type V = InstalledAppView;

    open spec fn view(&self) -> InstalledAppView {
        InstalledAppView { version_name: self.version_name@, firmware: self.firmware@ }
    }
}

impl DeepView for InstalledApp {
    type V = InstalledAppView;

    open spec fn deep_view(&self) -> InstalledAppView {
        self@
    }
}

/// An app as the catalog offers it for one device.
#[derive(Debug)]
pub struct CatalogApp {
    /// The version offered.
    pub version: String,
    pub perso: String,
    pub delete_key: String,
    pub firmware: String,
    pub firmware_key: String,
    pub hash: String,
}

/// A `CatalogApp` with its texts as sequences of characters.
pub struct CatalogAppView {
    pub version: Seq<char>,
    pub perso: Seq<char>,
    pub delete_key: Seq<char>,
    pub firmware: Seq<char>,
    pub firmware_key: Seq<char>,
    pub hash: Seq<char>,
}

impl View for CatalogApp {
    type V = CatalogAppView;

    open spec fn view(&self) -> CatalogAppView {
        CatalogAppView {
            version: self.version@,
            perso: self.perso@,
            delete_key: self.delete_key@,
            firmware: self.firmware@,
            firmware_key: self.firmware_key@,
            hash: self.hash@,
        }
    }
}

impl DeepView for CatalogApp {
    type V = CatalogAppView;

    open spec fn deep_view(&self) -> CatalogAppView {
        self@
    }
}

/// What a list of installed apps says of the device and its two Bitcoin apps.
#[derive(Debug)]
pub struct Inventory {
    pub model: Model,
    pub mainnet: Version,
    pub testnet: Version,
}

/// An `Inventory` with its texts as sequences of characters.
pub struct InventoryView {
    pub model: Model,
    pub mainnet: VersionView,
    pub testnet: VersionView,
}

impl View for Inventory {
    type V = InventoryView;

    open spec fn view(&self) -> InventoryView {
        InventoryView { model: self.model, mainnet: self.mainnet@, testnet: self.testnet@ }
    }
}

impl InventoryView {
    /// What is known before any app has been looked at: neither Bitcoin app
    /// is installed, and nothing tells the model.
    pub open spec fn empty() -> InventoryView {
        InventoryView {
            model: Model::Unknown,
            mainnet: VersionView::NotInstalled,
            testnet: VersionView::NotInstalled,
        }
    }

    /// What is known once `app` has been looked at too. A Bitcoin app gives
    /// its own version and the model; any other app changes nothing.
    pub open spec fn with(self, app: InstalledAppView) -> InventoryView {
        if app.version_name == MAINNET_APP@ {
            InventoryView {
                model: Model::resolve(app.firmware),
                mainnet: VersionView::Installed(installed_version(app.firmware)),
                testnet: self.testnet,
            }
        } else if app.version_name == TESTNET_APP@ {
            InventoryView {
                model: Model::resolve(app.firmware),
                mainnet: self.mainnet,
                testnet: VersionView::Installed(installed_version(app.firmware)),
            }
        } else {
            self
        }
    }

    /// What the apps in `apps` say, looked at in order: of several entries
    /// for one app the last counts.
    pub open spec fn of(apps: Seq<InstalledAppView>) -> InventoryView
        decreases apps.len(),
    {
        if apps.len() == 0 {
            InventoryView::empty()
        } else {
            InventoryView::of(apps.drop_last()).with(apps.last())
        }
    }
}

/// Whether `app` is one of the two Bitcoin apps.
pub open spec fn is_bitcoin_app(app: InstalledAppView) -> bool {
    app.version_name == MAINNET_APP@ || app.version_name == TESTNET_APP@
}

/// The two Bitcoin apps go by different names.
pub proof fn app_names_differ()
    ensures
        MAINNET_APP@ != TESTNET_APP@,
{
    reveal_strlit("Bitcoin");
    reveal_strlit("Bitcoin Test");
    assert(MAINNET_APP@.len() != TESTNET_APP@.len());
}

/// Without an entry for the mainnet app it counts as not installed; with
/// one, the last such entry tells the installed version.
pub proof fn inventory_reads_the_last_mainnet_entry(apps: Seq<InstalledAppView>, i: int)
    requires
        forall|j: int|
            0 <= j && i < j < apps.len() ==> (#[trigger] apps[j]).version_name != MAINNET_APP@,
        i < 0 || (i < apps.len() && apps[i].version_name == MAINNET_APP@),
    ensures
        InventoryView::of(apps).mainnet == if i < 0 {
            VersionView::NotInstalled
        } else {
            VersionView::Installed(installed_version(apps[i].firmware))
        },
    decreases apps.len(),
{
    if apps.len() > 0 && i < apps.len() - 1 {
        let before = apps.drop_last();
        assert forall|j: int| 0 <= j < before.len() implies before[j] == apps[j] by {}
        inventory_reads_the_last_mainnet_entry(before, i);
        assert(apps.last() == apps[apps.len() - 1]);
    }
}

/// Without an entry for the testnet app it counts as not installed; with
/// one, the last such entry tells the installed version.
pub proof fn inventory_reads_the_last_testnet_entry(apps: Seq<InstalledAppView>, i: int)
    requires
        forall|j: int|
            0 <= j && i < j < apps.len() ==> (#[trigger] apps[j]).version_name != TESTNET_APP@,
        i < 0 || (i < apps.len() && apps[i].version_name == TESTNET_APP@),
    ensures
        InventoryView::of(apps).testnet == if i < 0 {
            VersionView::NotInstalled
        } else {
            VersionView::Installed(installed_version(apps[i].firmware))
        },
    decreases apps.len(),
{
    app_names_differ();
    if apps.len() > 0 && i < apps.len() - 1 {
        let before = apps.drop_last();
        assert forall|j: int| 0 <= j < before.len() implies before[j] == apps[j] by {}
        inventory_reads_the_last_testnet_entry(before, i);
        assert(apps.last() == apps[apps.len() - 1]);
    }
}

/// Without a Bitcoin app among the entries the model stays unknown; with
/// one, the firmware path of the last of them names the model.
pub proof fn inventory_reads_the_model_off_the_last_bitcoin_app(
    apps: Seq<InstalledAppView>,
    i: int,
)
    requires
        forall|j: int| 0 <= j && i < j < apps.len() ==> !is_bitcoin_app(#[trigger] apps[j]),
        i < 0 || (i < apps.len() && is_bitcoin_app(apps[i])),
    ensures
        InventoryView::of(apps).model == if i < 0 {
            Model::Unknown
        } else {
            Model::resolve(apps[i].firmware)
        },
    decreases apps.len(),
{
    if apps.len() > 0 && i < apps.len() - 1 {
        let before = apps.drop_last();
        assert forall|j: int| 0 <= j < before.len() implies before[j] == apps[j] by {}
        inventory_reads_the_model_off_the_last_bitcoin_app(before, i);
        assert(apps.last() == apps[apps.len() - 1]);
    }
}

/// Goes through the installed apps and notes the versions of the two
/// Bitcoin apps and the model that their firmware paths name.
pub fn check_apps_installed(apps: &Vec<InstalledApp>) -> (found: Inventory)
    ensures
        found@ == InventoryView::of(apps.deep_view()),
{
    let mut found = Inventory {
        model: Model::Unknown,
        mainnet: Version::NotInstalled,
        testnet: Version::NotInstalled,
    };
    let mainnet_name = String::from_str(MAINNET_APP);
    let testnet_name = String::from_str(TESTNET_APP);
    let mut i: usize = 0;
    while i < apps.len()
        invariant
            i <= apps.len(),
            mainnet_name@ == MAINNET_APP@,
            testnet_name@ == TESTNET_APP@,
            found@ == InventoryView::of(apps.deep_view().take(i as int)),
        decreases apps.len() - i,
    {
        let app = &apps[i];
        proof {
            let seen = apps.deep_view().take(i + 1);
            assert(seen.drop_last() == apps.deep_view().take(i as int));
            assert(seen.last() == app@);
        }
        if app.version_name == mainnet_name {
            found.mainnet = Version::Installed(resolve_installed_version(app.firmware.as_str()));
            found.model = Model::from_app_firmware(app.firmware.as_str());
        } else if app.version_name == testnet_name {
            found.testnet = Version::Installed(resolve_installed_version(app.firmware.as_str()));
            found.model = Model::from_app_firmware(app.firmware.as_str());
        }
        i += 1;
    }
    assert(apps.deep_view().take(apps.len() as int) == apps.deep_view());
    found
}

/// The latest version of an app, given what the catalog offers of it:
/// `Unknown` when it offers nothing.
pub open spec fn latest_version(offered: Option<CatalogAppView>) -> VersionView {
    match offered {
        Some(app) => VersionView::Latest(app.version),
        None => VersionView::Unknown,
    }
}

/// Turns the catalog's answer for the mainnet and the testnet app into the
/// latest version of each.
pub fn check_latest_apps(bitcoin: Option<CatalogApp>, test: Option<CatalogApp>) -> (latest: (
    Version,
    Version,
))
    ensures
        latest.0@ == latest_version(bitcoin.deep_view()),
        latest.1@ == latest_version(test.deep_view()),
{
    let bitcoin = match bitcoin {
        Some(app) => Version::Latest(app.version),
        None => Version::Unknown,
    };
    let test = match test {
        Some(app) => Version::Latest(app.version),
        None => Version::Unknown,
    };
    (bitcoin, test)
}

} // verus!
