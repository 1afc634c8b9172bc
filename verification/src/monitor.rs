//! Monitor records and the brightness-setting decision logic.
//!
//! The transport (enumerating physical displays and reading or writing VCP
//! features over the hardware channel) is an outside capability; its results
//! enter here as plain values. `collect_monitors` turns them into the records
//! handed to callers, and `set_brightness` decides which single monitor a
//! brightness write applies to.

use vstd::prelude::*;
use vstd::string::StringExecFns;

use crate::digits::dec_str;
use crate::digits::index_string;

verus! {

/// One monitor as reported to callers: an identifier, a display name, and the
/// raw current value of the brightness feature (not a percentage).
pub struct MonitorInfo {
    pub id: String,
    pub name: String,
    pub brightness: u16,
}

/// Current and maximum raw value of one VCP feature. The maximum defines the
/// scale that a percentage is converted against.
pub struct VcpValue {
    pub current: u16,
    pub maximum: u16,
}

/// What the transport reported for one enumerated monitor: its optional serial
/// number and product name, and the outcome of reading the brightness feature
/// (a value, or the transport's error message).
pub struct MonitorProbe {
    pub serial: Option<String>,
    pub product: Option<String>,
    pub reading: Result<VcpValue, String>,
}

/// Why listing monitors or setting brightness failed.
pub enum BrightnessError {
    /// The transport could not list monitors at all.
    Enumeration,
    /// A feature read or write failed; carries the transport's message.
    Protocol(String),
    /// The requested percentage lies outside 0..=100.
    InvalidArgument,
    /// No monitor was selected: carries the target id that nothing matched,
    /// or nothing when no target was given and no monitor was present.
    NotFound(Option<String>),
}

/// The name a monitor gets when the transport reports no product name.
pub open spec fn unknown_name() -> Seq<char> {
    "Unknown monitor"@
}

/// The identifier of the monitor at zero-based position `index` whose reported
/// serial number is `serial`: the serial number when there is one, else the
/// position in decimal.
pub open spec fn id_view(serial: Option<String>, index: int) -> Seq<char> {
    match serial {
        Some(s) => s@,
        None => dec_str(index as nat),
    }
}

/// The identifier of one monitor, built from its reported serial number and
/// its zero-based position in the enumeration.
pub fn monitor_id_for(serial: Option<String>, index: usize) -> (r: String)
    ensures
        r@ == id_view(serial, index as int),
{
    match serial {
        Some(s) => s,
        None => index_string(index),
    }
}

/// What one listed record must hold for the monitor probed at `index`: the
/// identifier built from the serial number (or the position in decimal), the
/// product name (or the fixed placeholder), and the raw current value of the
/// brightness feature.
pub open spec fn record_matches(probe: MonitorProbe, index: int, rec: MonitorInfo) -> bool {
    &&& rec.id@ == id_view(probe.serial, index)
    &&& rec.name@ == match probe.product {
        Some(p) => p@,
        None => unknown_name(),
    }
    &&& probe.reading matches Ok(v) && rec.brightness == v.current
}

/// The first position at or after `i` whose brightness reading failed, if any.
pub open spec fn first_failed_from(probes: Seq<MonitorProbe>, i: int) -> Option<int>
    decreases probes.len() - i,
{
    if i < 0 || i >= probes.len() {
        None
    } else if probes[i].reading is Err {
        Some(i)
    } else {
        first_failed_from(probes, i + 1)
    }
}

/// The first monitor whose brightness reading failed, if any: a single
/// unreadable monitor aborts the whole listing.
pub open spec fn first_failed(probes: Seq<MonitorProbe>) -> Option<int> {
    first_failed_from(probes, 0)
}

/// Searching for a failed reading can start at `i` when every reading before
/// `i` succeeded.
proof fn lemma_failed_skip_to(probes: Seq<MonitorProbe>, i: int)
    requires
        0 <= i <= probes.len(),
        forall|k: int| 0 <= k < i ==> !(#[trigger] probes[k].reading is Err),
    ensures
        first_failed(probes) == first_failed_from(probes, i),
    decreases i,
{
    if i > 0 {
        lemma_failed_skip_to(probes, i - 1);
    }
}

/// Build the records a listing call hands to callers, one per enumerated
/// monitor and in enumeration order.
///
/// `enumeration` is what the transport reported: nothing when it could not be
/// queried, else one probe per monitor. The whole listing fails on the first
/// monitor whose brightness could not be read — no partial results — and an
/// empty enumeration yields an empty listing, not an error.
#[verifier::loop_isolation(false)]
pub fn collect_monitors(enumeration: Option<Vec<MonitorProbe>>) -> (r: Result<
    Vec<MonitorInfo>,
    BrightnessError,
>)
    ensures
        enumeration is None ==> r == Err::<Vec<MonitorInfo>, BrightnessError>(
            BrightnessError::Enumeration,
        ),
        enumeration matches Some(probes) ==> match first_failed(probes@) {
            None => r matches Ok(records) && records@.len() == probes@.len() && (forall|k: int|
                0 <= k < probes@.len() ==> record_matches(probes@[k], k, #[trigger] records@[k])),
            Some(j) => r matches Err(BrightnessError::Protocol(m)) && probes@[j].reading matches Err(msg)
                && m == msg,
        },
{
    let mut probes = match enumeration {
        None => {
            return Err(BrightnessError::Enumeration);
        },
        Some(p) => p,
    };
    let ghost all = probes@;
    let total: usize = probes.len();
    let mut records: Vec<MonitorInfo> = Vec::new();
    let mut index: usize = 0;
    while probes.len() > 0
        invariant
            all.len() == total,
            index + probes@.len() == all.len(),
            probes@ =~= all.subrange(index as int, all.len() as int),
            records@.len() == index,
            forall|k: int| 0 <= k < index ==> record_matches(all[k], k, #[trigger] records@[k]),
            forall|k: int| 0 <= k < index ==> !(#[trigger] all[k].reading is Err),
        decreases probes.len(),
    {
        let probe = probes.remove(0);
        proof {
            assert(probe == all[index as int]);
        }
        let MonitorProbe { serial, product, reading } = probe;
        match reading {
            Err(m) => {
                proof {
                    lemma_failed_skip_to(all, index as int);
                }
                return Err(BrightnessError::Protocol(m));
            },
            Ok(v) => {
                let id = monitor_id_for(serial, index);
                let name = match product {
                    Some(p) => p,
                    None => String::from_str("Unknown monitor"),
                };
                records.push(MonitorInfo { id, name, brightness: v.current });
                index += 1;
                proof {
                    assert(probes@ =~= all.subrange(index as int, all.len() as int));
                }
            },
        }
    }
    proof {
        lemma_failed_skip_to(all, all.len() as int);
    }
    Ok(records)
}

/// Whether the monitor at position `i` is the one a write may apply to: with
/// no target every monitor qualifies, with a target only one whose identifier
/// equals it.
pub open spec fn matches_target(serials: Seq<Option<String>>, target: Option<String>, i: int) -> bool {
    match target {
        None => true,
        Some(t) => id_view(serials[i], i) == t@,
    }
}

/// The first position at or after `i` that matches the target, if any.
pub open spec fn first_match_from(serials: Seq<Option<String>>, target: Option<String>, i: int) -> Option<int>
    decreases serials.len() - i,
{
    if i < 0 || i >= serials.len() {
        None
    } else if matches_target(serials, target, i) {
        Some(i)
    } else {
        first_match_from(serials, target, i + 1)
    }
}

/// The monitor a brightness write applies to: the first enumerated one whose
/// identifier matches the target, or simply the first enumerated one when no
/// target is given.
pub open spec fn first_match(serials: Seq<Option<String>>, target: Option<String>) -> Option<int> {
    first_match_from(serials, target, 0)
}

/// Searching can start at `i` when nothing before `i` matches.
proof fn lemma_skip_to(serials: Seq<Option<String>>, target: Option<String>, i: int)
    requires
        0 <= i <= serials.len(),
        forall|k: int| 0 <= k < i ==> !matches_target(serials, target, k),
    ensures
        first_match(serials, target) == first_match_from(serials, target, i),
    decreases i,
{
    if i > 0 {
        lemma_skip_to(serials, target, i - 1);
    }
}

/// Selection picks the first match and nothing else: a selected position
/// matches the target and no earlier position does, and when nothing is
/// selected no position matches at all.
pub proof fn lemma_first_match_is_first(serials: Seq<Option<String>>, target: Option<String>)
    ensures
        match first_match(serials, target) {
            Some(i) => 0 <= i < serials.len() && matches_target(serials, target, i) && (forall|k: int|
                0 <= k < i ==> !matches_target(serials, target, k)),
            None => forall|k: int| 0 <= k < serials.len() ==> !matches_target(serials, target, k),
        },
{
    lemma_first_match_from_is_first(serials, target, 0);
}

proof fn lemma_first_match_from_is_first(serials: Seq<Option<String>>, target: Option<String>, i: int)
    requires
        0 <= i,
    ensures
        match first_match_from(serials, target, i) {
            Some(j) => i <= j < serials.len() && matches_target(serials, target, j) && (forall|k: int|
                i <= k < j ==> !matches_target(serials, target, k)),
            None => forall|k: int| i <= k < serials.len() ==> !matches_target(serials, target, k),
        },
    decreases serials.len() - i,
{
    if i < serials.len() && !matches_target(serials, target, i) {
        lemma_first_match_from_is_first(serials, target, i + 1);
    }
}

/// With no target given, the first enumerated monitor is always the one
/// selected — never a later one, and never more than one.
pub proof fn lemma_no_target_selects_first(serials: Seq<Option<String>>)
    requires
        serials.len() > 0,
    ensures
        first_match(serials, None) == Some(0int),
{
}

/// A target identifier that no monitor's identifier equals selects nothing,
/// so no write is planned for it.
pub proof fn lemma_no_match_selects_none(serials: Seq<Option<String>>, target: String)
    requires
        forall|k: int| 0 <= k < serials.len() ==> id_view(serials[k], k) != target@,
    ensures
        first_match(serials, Some(target)) is None,
{
    lemma_skip_to(serials, Some(target), serials.len() as int);
}

/// With zero monitors enumerated nothing is selected, with or without a
/// target.
pub proof fn lemma_empty_selects_none(target: Option<String>)
    ensures
        first_match(Seq::empty(), target) is None,
{
}

/// Selection computes identifiers exactly as the listing does: an identifier
/// taken from a listed monitor, handed back as the target, selects a monitor —
/// the listed one, or an earlier one bearing the same identifier.
pub proof fn lemma_listed_id_selects(serials: Seq<Option<String>>, target: String, i: int)
    requires
        0 <= i < serials.len(),
        id_view(serials[i], i) == target@,
    ensures
        first_match(serials, Some(target)) matches Some(j) && j <= i,
{
    assert(matches_target(serials, Some(target), i));
    lemma_first_match_is_first(serials, Some(target));
}

/// Decide which single monitor a brightness write applies to.
///
/// `enumeration` is what the transport reported: nothing when it could not be
/// queried, else the optional serial number of each monitor in enumeration
/// order. The result is the position of the one monitor to write — the first
/// whose identifier matches `monitor_id`, or the first monitor outright when
/// no target is given — or the error to surface.
#[verifier::loop_isolation(false)]
pub fn set_brightness(percent: u16, monitor_id: Option<String>, enumeration: Option<Vec<Option<String>>>) -> (r:
    Result<usize, BrightnessError>)
    ensures
        percent > 100 <==> r == Err::<usize, BrightnessError>(BrightnessError::InvalidArgument),
        percent <= 100 && enumeration is None ==> r == Err::<usize, BrightnessError>(
            BrightnessError::Enumeration,
        ),
        percent <= 100 ==> (enumeration matches Some(serials) ==> match first_match(serials@, monitor_id) {
            Some(i) => r matches Ok(k) && k as int == i,
            None => r == Err::<usize, BrightnessError>(BrightnessError::NotFound(monitor_id)),
        }),
{
    if percent > 100 {
        return Err(BrightnessError::InvalidArgument);
    }
    let serials = match enumeration {
        None => {
            return Err(BrightnessError::Enumeration);
        },
        Some(s) => s,
    };
    let mut i: usize = 0;
    while i < serials.len()
        invariant
            i <= serials.len(),
            forall|k: int| 0 <= k < i ==> !matches_target(serials@, monitor_id, k),
        decreases serials.len() - i,
    {
        let matched: bool = match &monitor_id {
            None => true,
            Some(t) => {
                match &serials[i] {
                    Some(s) => *s == *t,
                    None => {
                        let position = index_string(i);
                        position == *t
                    },
                }
            },
        };
        if matched {
            proof {
                lemma_skip_to(serials@, monitor_id, i as int);
            }
            return Ok(i);
        }
        i += 1;
    }
    proof {
        lemma_skip_to(serials@, monitor_id, serials@.len() as int);
    }
    Err(BrightnessError::NotFound(monitor_id))
}

} // verus!
