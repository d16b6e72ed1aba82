//! Device models and app versions, and how both are read off the firmware
//! path that the device reports for an installed app.

use crate::text::{find_first, find_last};
use vstd::prelude::*;
use vstd::string::*;

verus! {

/// The part of `path` before its first `/`; all of `path` when it has none.
pub open spec fn first_segment(path: Seq<char>) -> Seq<char> {
    match path.index_of_first('/') {
        Some(i) => path.take(i),
        None => path,
    }
}

/// The part of `path` after its last `/`; all of `path` when it has none.
pub open spec fn last_segment(path: Seq<char>) -> Seq<char> {
    match path.index_of_last('/') {
        Some(i) => path.skip(i + 1),
        None => path,
    }
}

/// `text` without `prefix` in front, or unchanged when it does not begin with it.
pub open spec fn without_prefix(text: Seq<char>, prefix: Seq<char>) -> Seq<char> {
    if prefix.is_prefix_of(text) {
        text.skip(prefix.len() as int)
    } else {
        text
    }
}

/// The version of the app that lives at the firmware path `path`.
pub open spec fn installed_version(path: Seq<char>) -> Seq<char> {
    without_prefix(last_segment(path), "app_"@)
}

/// The hardware models that are told apart.
#[derive(Debug, Clone, Copy, PartialEq, Eq, Structural)]
pub enum Model {
    NanoS,
    NanoSP,
    NanoX,
    Unknown,
}

impl Model {
    /// The name under which the model is shown.
    pub open spec fn text(self) -> Seq<char> {
        match self {
            Model::NanoS => "Nano S"@,
            Model::NanoSP => "Nano S+"@,
            Model::NanoX => "Nano X"@,
            Model::Unknown => ""@,
        }
    }

    /// The model that the leading segment of a firmware path stands for.
    pub open spec fn of_segment(segment: Seq<char>) -> Model {
        if segment == "nanos"@ {
            Model::NanoS
        } else if segment == "nanos+"@ {
            Model::NanoSP
        } else if segment == "nanox"@ {
            Model::NanoX
        } else {
            Model::Unknown
        }
    }

    /// The model named by the firmware path `path`.
    pub open spec fn resolve(path: Seq<char>) -> Model {
        Model::of_segment(first_segment(path))
    }

    /// Determines the device model from the firmware path of an installed app.
    /// Every input has an answer: a path that names no known model gives
    /// `Unknown`.
    pub fn from_app_firmware(value: &str) -> (model: Model)
        ensures
            model == Model::resolve(value@),
    {
        let end = match find_first(value, '/') {
            Some(i) => i,
            None => value.unicode_len(),
        };
        let head = String::from_str(value.substring_char(0, end));
        assert(head@ == first_segment(value@)) by {
            assert(value@.subrange(0, value@.len() as int) == value@);
        }
        if head == String::from_str("nanos") {
            Model::NanoS
        } else if head == String::from_str("nanos+") {
            Model::NanoSP
        } else if head == String::from_str("nanox") {
            Model::NanoX
        } else {
            Model::Unknown
        }
    }

    /// The name under which the model is shown; empty for an unknown model.
    pub fn to_string(&self) -> (shown: String)
        ensures
            shown@ == self.text(),
    {
        match self {
            Model::NanoS => String::from_str("Nano S"),
            Model::NanoSP => String::from_str("Nano S+"),
            Model::NanoX => String::from_str("Nano X"),
            Model::Unknown => String::from_str(""),
        }
    }
}

/// Reads the version of an installed app off its firmware path: the last
/// segment, without the `app_` it may begin with.
pub fn resolve_installed_version(value: &str) -> (version: String)
    ensures
        version@ == installed_version(value@),
{
    let n = value.unicode_len();
    let start = match find_last(value, '/') {
        Some(i) => i + 1,
        None => 0,
    };
    proof {
        reveal_strlit("app_");
    }
    let tail = value.substring_char(start, n);
    assert(tail@ == last_segment(value@)) by {
        assert(value@.subrange(0, n as int) == value@);
    }
    let m = n - start;
    if m >= 4 && String::from_str(tail.substring_char(0, 4)) == String::from_str("app_") {
        String::from_str(tail.substring_char(4, m))
    } else {
        String::from_str(tail)
    }
}

/// What is known of one app: the version installed on the device, or the
/// latest one that the catalog offers.
#[derive(Debug)]
pub enum Version {
    Installed(String),
    Latest(String),
    NotInstalled,
    Unknown,
}

/// A `Version` with its text as a sequence of characters.
pub enum VersionView {
    Installed(Seq<char>),
    Latest(Seq<char>),
    NotInstalled,
    Unknown,
}

impl VersionView {
    /// The text under which the version is shown. Two versions are equal
    /// when this text is.
    pub open spec fn text(self) -> Seq<char> {
        match self {
            VersionView::Installed(v) => v,
            VersionView::Latest(v) => v,
            VersionView::NotInstalled => "Not installed!"@,
            VersionView::Unknown => " - "@,
        }
    }

    /// Equality of versions: that of the texts shown.
    pub open spec fn same(self, other: VersionView) -> bool {
        self.text() == other.text()
    }
}

/// Equality of versions is an equivalence.
pub proof fn version_equality_is_an_equivalence(a: VersionView, b: VersionView, c: VersionView)
    ensures
        a.same(a),
        a.same(b) ==> b.same(a),
        a.same(b) && b.same(c) ==> a.same(c),
{
}

/// An installed version equals a latest one if and only if their texts are
/// the same, and knowing nothing is not the same as knowing that nothing is
/// installed.
pub proof fn installed_equals_latest_of_same_text(installed: Seq<char>, latest: Seq<char>)
    ensures
        VersionView::Installed(installed).same(VersionView::Latest(latest)) <==> installed
            == latest,
        !VersionView::Unknown.same(VersionView::NotInstalled),
{
    reveal_strlit(" - ");
    reveal_strlit("Not installed!");
    assert(" - "@.len() != "Not installed!"@.len());
}

impl View for Version {
    type V = VersionView;

    open spec fn view(&self) -> VersionView {
        match self {
            Version::Installed(v) => VersionView::Installed(v@),
            Version::Latest(v) => VersionView::Latest(v@),
            Version::NotInstalled => VersionView::NotInstalled,
            Version::Unknown => VersionView::Unknown,
        }
    }
}

impl DeepView for Version {
    type V = VersionView;

    open spec fn deep_view(&self) -> VersionView {
        self@
    }
}

impl Version {
    /// Whether nothing is known of the app.
    pub fn is_none(&self) -> (none: bool)
        ensures
            none == (self@ is Unknown),
    {
        matches!(self, Version::Unknown)
    }

    /// Whether something is known of the app, be it that it is not installed.
    pub fn is_some(&self) -> (some: bool)
        ensures
            some == !(self@ is Unknown),
    {
        !self.is_none()
    }

    /// The text under which the version is shown.
    pub fn to_string(&self) -> (shown: String)
        ensures
            shown@ == self@.text(),
    {
        match self {
            Version::Installed(version) => version.clone(),
            Version::Latest(version) => version.clone(),
            Version::NotInstalled => String::from_str("Not installed!"),
            Version::Unknown => String::from_str(" - "),
        }
    }
}

impl Clone for Version {
    fn clone(&self) -> (copy: Self)
        ensures
            copy == *self,
    {
        match self {
            Version::Installed(version) => Version::Installed(version.clone()),
            Version::Latest(version) => Version::Latest(version.clone()),
            Version::NotInstalled => Version::NotInstalled,
            Version::Unknown => Version::Unknown,
        }
    }
}

/// Two versions are equal when the texts shown for them are, whichever way
/// each came to be known: an installed version equals the catalog's latest
/// when both read the same.
impl PartialEq for Version {
    fn eq(&self, other: &Self) -> (same: bool) {
        self.to_string() == other.to_string()
    }
}

impl vstd::std_specs::cmp::PartialEqSpecImpl for Version {
    open spec fn obeys_eq_spec() -> bool {
        true
    }

    open spec fn eq_spec(&self, other: &Self) -> bool {
        self@.same(other@)
    }
}

} // verus!
