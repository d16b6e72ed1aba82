//! The address at which the install service is asked to put an app on a
//! device.

use crate::device::{CatalogApp, CatalogAppView};
use vstd::prelude::*;
use vstd::string::*;

verus! {

/// The path and the question mark that follow the service's base address.
pub const INSTALL_PATH: &'static str = "/install?";

/// The ten digits, in order.
pub const DIGITS: &'static str = "0123456789";

/// The character that stands for the digit `d`.
pub open spec fn digit(d: nat) -> char
    recommends
        d < 10,
{
    DIGITS@[d as int]
}

/// `n` written in base ten, without leading zeros.
pub open spec fn decimal(n: nat) -> Seq<char>
    decreases n,
{
    if n < 10 {
        seq![digit(n)]
    } else {
        decimal(n / 10).push(digit(n % 10))
    }
}

fn digit_text(d: u32) -> (text: &'static str)
    requires
        d < 10,
    ensures
        text@ == seq![digit(d as nat)],
{
    proof {
        reveal_strlit("0123456789");
    }
    let at = d as usize;
    let text = DIGITS.substring_char(at, at + 1);
    assert(text@ =~= seq![digit(d as nat)]);
    text
}

/// Writes `n` in base ten.
pub fn decimal_text(n: u32) -> (text: String)
    ensures
        text@ == decimal(n as nat),
    decreases n,
{
    if n < 10 {
        String::from_str(digit_text(n))
    } else {
        let text = decimal_text(n / 10).concat(digit_text(n % 10));
        assert(text@ =~= decimal(n as nat));
        text
    }
}

/// What `form_urlencoded` makes of `target` when the name/value pairs
/// `pairs` are serialized onto its end, in order.
pub uninterp spec fn urlencoded(target: Seq<char>, pairs: Seq<(Seq<char>, Seq<char>)>) -> Seq<char>;

/// Calls `form_urlencoded::Serializer::new(target)`, `extend_pairs(pairs)`
/// and `finish()`. The serializer takes `target` as text that is in form
/// syntax already, appends each pair in order as `name=value`, both
/// percent-encoded, with an `&` before it wherever text precedes it, and
/// hands the string back. The outcome depends on `target` and `pairs` alone;
/// the contract gives it its name and claims no more.
#[verifier::external_body]
fn serialize_pairs(target: String, pairs: &Vec<(String, String)>) -> (url: String)
    ensures
        url@ == urlencoded(target@, pairs.deep_view()),
{
    form_urlencoded::Serializer::new(target).extend_pairs(pairs.iter()).finish()
}

/// The name/value pairs of an install request for the device with target
/// `target_id` and the app `app`, in the order in which they are sent.
pub open spec fn install_pairs(target_id: u32, app: CatalogAppView) -> Seq<(Seq<char>, Seq<char>)> {
    seq![
        ("targetId"@, decimal(target_id as nat)),
        ("perso"@, app.perso),
        ("deleteKey"@, app.delete_key),
        ("firmware"@, app.firmware),
        ("firmwareKey"@, app.firmware_key),
        ("hash"@, app.hash),
    ]
}

/// The address that `install_url` builds.
pub open spec fn install_address(base: Seq<char>, target_id: u32, app: CatalogAppView) -> Seq<
    char,
> {
    urlencoded(base + INSTALL_PATH@, install_pairs(target_id, app))
}

/// Builds the address that asks the install service at `base` to put `app`
/// on the device with target `target_id`: `base`, the install path, and
/// the request's parameters in form syntax.
pub fn install_url(base: &str, target_id: u32, app: &CatalogApp) -> (url: String)
    ensures
        url@ == install_address(base@, target_id, app@),
{
    let mut pairs: Vec<(String, String)> = Vec::new();
    pairs.push((String::from_str("targetId"), decimal_text(target_id)));
    pairs.push((String::from_str("perso"), app.perso.clone()));
    pairs.push((String::from_str("deleteKey"), app.delete_key.clone()));
    pairs.push((String::from_str("firmware"), app.firmware.clone()));
    pairs.push((String::from_str("firmwareKey"), app.firmware_key.clone()));
    pairs.push((String::from_str("hash"), app.hash.clone()));
    assert(pairs.deep_view() =~= install_pairs(target_id, app@));
    serialize_pairs(String::from_str(base).concat(INSTALL_PATH), &pairs)
}

} // verus!
