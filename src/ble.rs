//! Bluetooth bridge helpers: recognising bridges by name, the object path of
//! a bridge, and picking its write and notify characteristics.
use crate::error::RenogyError;
use crate::remote::str_eq;
use crate::transport::{BT2_NAME_PREFIX, BT2_NOTIFY_CHAR_UUID, BT2_WRITE_CHAR_UUID};
use vstd::prelude::*;

verus! {

/// The text with every letter in lower case.
pub uninterp spec fn lower_of(s: Seq<char>) -> Seq<char>;

/// The text with every letter in upper case.
pub uninterp spec fn upper_of(s: Seq<char>) -> Seq<char>;

/// Relies on `str::to_lowercase`: the result depends on the text alone.
#[verifier::external_body]
fn lowercase(s: &str) -> (r: String)
    ensures
        r@ == lower_of(s@),
{
    s.to_lowercase()
}

/// Relies on `str::to_uppercase`: the result depends on the text alone.
#[verifier::external_body]
fn uppercase(s: &str) -> (r: String)
    ensures
        r@ == upper_of(s@),
{
    s.to_uppercase()
}

/// Whether `s` begins with `prefix`.
pub open spec fn has_prefix(s: Seq<char>, prefix: Seq<char>) -> bool {
    prefix.len() <= s.len() && s.subrange(0, prefix.len() as int) == prefix
}

/// Whether `s` begins with `prefix`.
pub fn starts_with(s: &str, prefix: &str) -> (r: bool)
    ensures
        r == has_prefix(s@, prefix@),
{
    let n = prefix.unicode_len();
    if n > s.unicode_len() {
        return false;
    }
    let mut i: usize = 0;
    while i < n
        invariant
            i <= n,
            n == prefix@.len(),
            n <= s@.len(),
            s@.subrange(0, i as int) == prefix@.subrange(0, i as int),
        decreases n - i,
    {
        if s.get_char(i) != prefix.get_char(i) {
            assert(s@.subrange(0, n as int)[i as int] != prefix@[i as int]);
            return false;
        }
        assert(s@.subrange(0, i + 1) =~= s@.subrange(0, i as int).push(s@[i as int]));
        assert(prefix@.subrange(0, i + 1) =~= prefix@.subrange(0, i as int).push(prefix@[i as int]));
        i = i + 1;
    }
    assert(prefix@.subrange(0, n as int) =~= prefix@);
    true
}

/// Whether an advertised name is that of a bridge.
pub fn is_bt2_name(name: &str) -> (r: bool)
    ensures
        r == has_prefix(name@, BT2_NAME_PREFIX@),
{
    starts_with(name, BT2_NAME_PREFIX)
}

/// `s` with every `:` replaced by `_`.
pub open spec fn colons_to_underscores(s: Seq<char>) -> Seq<char> {
    s.map_values(|c: char| if c == ':' { '_' } else { c })
}

/// The object path of the bridge with address `mac` on `adapter`.
pub open spec fn device_path_of(adapter: Seq<char>, mac: Seq<char>) -> Seq<char> {
    "/org/bluez/"@ + adapter + "/dev_"@ + upper_of(colons_to_underscores(mac))
}

/// The object path of the bridge with address `mac` on `adapter`, as in
/// `/org/bluez/hci0/dev_AA_BB_CC_DD_EE_FF`.
pub fn device_path(adapter: &str, mac: &str) -> (r: String)
    ensures
        r@ == device_path_of(adapter@, mac@),
{
    let n = mac.unicode_len();
    let mut replaced = String::new();
    let mut i: usize = 0;
    while i < n
        invariant
            i <= n,
            n == mac@.len(),
            replaced@ == colons_to_underscores(mac@.subrange(0, i as int)),
        decreases n - i,
    {
        proof {
            reveal_strlit("_");
        }
        if mac.get_char(i) == ':' {
            replaced.append("_");
        } else {
            replaced.append(mac.substring_char(i, i + 1));
        }
        assert(replaced@ =~= colons_to_underscores(mac@.subrange(0, i + 1)));
        i = i + 1;
    }
    assert(mac@.subrange(0, n as int) =~= mac@);
    let mut path = String::from_str("/org/bluez/");
    path.append(adapter);
    path.append("/dev_");
    path.append(uppercase(replaced.as_str()).as_str());
    path
}

/// The write and notify characteristic paths found so far among
/// `(path, uuid)` pairs under `device`: the scan stops once both are found.
pub open spec fn characteristic_scan(objects: Seq<(String, String)>, device: Seq<char>) -> (Option<Seq<char>>, Option<Seq<char>>)
    decreases objects.len(),
{
    if objects.len() == 0 {
        (None, None)
    } else {
        let (w, n) = characteristic_scan(objects.drop_last(), device);
        let (path, uuid) = objects.last();
        if w is Some && n is Some || !has_prefix(path@, device) {
            (w, n)
        } else if lower_of(uuid@) == BT2_WRITE_CHAR_UUID@ {
            (Some(path@), n)
        } else if lower_of(uuid@) == BT2_NOTIFY_CHAR_UUID@ {
            (w, Some(path@))
        } else {
            (w, n)
        }
    }
}

/// Picks the write and notify characteristics of the bridge at `device` from
/// the `(object path, UUID)` pairs of every characteristic; UUIDs compare
/// without regard to case. Fails with a Bluetooth error when either is
/// missing.
pub fn select_characteristics(objects: &Vec<(String, String)>, device: &str) -> (r: Result<(String, String), RenogyError>)
    ensures
        match characteristic_scan(objects@, device@) {
            (Some(w), Some(n)) => r is Ok && r->Ok_0.0@ == w && r->Ok_0.1@ == n,
            _ => r matches Err(RenogyError::Bluetooth(_)),
        },
{
    let mut write_path: Option<String> = None;
    let mut notify_path: Option<String> = None;
    let mut i: usize = 0;
    while i < objects.len()
        invariant
            i <= objects@.len(),
            ({
                let (w, n) = characteristic_scan(objects@.subrange(0, i as int), device@);
                &&& match write_path {
                    Some(p) => w == Some(p@),
                    None => w is None,
                }
                &&& match notify_path {
                    Some(p) => n == Some(p@),
                    None => n is None,
                }
            }),
        decreases objects@.len() - i,
    {
        assert(objects@.subrange(0, i + 1).drop_last() =~= objects@.subrange(0, i as int));
        let (path, uuid) = &objects[i];
        if !(write_path.is_some() && notify_path.is_some()) && starts_with(path.as_str(), device) {
            let lower = lowercase(uuid.as_str());
            if str_eq(lower.as_str(), BT2_WRITE_CHAR_UUID) {
                write_path = Some(path.clone());
            } else if str_eq(lower.as_str(), BT2_NOTIFY_CHAR_UUID) {
                notify_path = Some(path.clone());
            }
        }
        i = i + 1;
    }
    assert(objects@.subrange(0, i as int) =~= objects@);
    match (write_path, notify_path) {
        (Some(w), Some(n)) => Ok((w, n)),
        _ => Err(RenogyError::Bluetooth(String::from_str("BT-2 characteristics not found"))),
    }
}

} // verus!
