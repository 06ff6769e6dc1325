//! The device resolver's decision logic: whether to use the fixed primary
//! device, when to degrade to a scan of the input-device directory, which
//! directory entries are candidate device nodes, and which scanned device is
//! picked — the first whose human-readable name contains `gpio` or `key`
//! (case-insensitively) and which reports switch-event support.

use vstd::prelude::*;

verus! {

/// What probing the fixed primary device path yielded.
#[derive(Clone, Copy, Debug, PartialEq, Eq, Structural)]
pub enum PrimaryProbe {
    /// The primary device opened and reports switch-event support.
    Capable,
    /// The primary device opened but reports no switch-event support at all.
    NoSwitchSupport,
    /// The primary device path could not be opened.
    OpenFailed,
}

/// The resolver's next step after probing the primary device.
#[derive(Clone, Copy, Debug, PartialEq, Eq, Structural)]
pub enum ResolverStep {
    /// Use the primary device as resolved.
    UsePrimary,
    /// Degrade to a directory scan; the field records whether the primary
    /// device had opened (and merely lacked switch support), so the caller
    /// surfaces the two degradations distinctly before scanning.
    ScanFallback { primary_opened: bool },
}

/// One scanned input device that could be opened: its human-readable name as
/// bytes, where it has one, and whether it reports switch-event support.
#[derive(Debug)]
pub struct ScanCandidate {
    pub name: Option<Vec<u8>>,
    pub has_switch_support: bool,
}

/// A lower-case letter for an ASCII upper-case letter; any other byte as it is.
pub open spec fn ascii_lower(b: u8) -> u8 {
    if 65 <= b && b <= 90 {
        (b + 32) as u8
    } else {
        b
    }
}

/// Whether the needle occurs in the haystack at offset `i`, comparing bytes
/// case-insensitively.
pub open spec fn matches_at_ci(h: Seq<u8>, n: Seq<u8>, i: int) -> bool {
    forall|j: int| 0 <= j < n.len() ==> ascii_lower(h[i + j]) == ascii_lower(n[j])
}

/// Whether the needle occurs anywhere in the haystack, case-insensitively.
pub open spec fn contains_ci(h: Seq<u8>, n: Seq<u8>) -> bool {
    exists|i: int| 0 <= i && i + n.len() <= h.len() && matches_at_ci(h, n, i)
}

/// The bytes of the substring `gpio`.
pub open spec fn gpio_word() -> Seq<u8> {
    seq![103u8, 112u8, 105u8, 111u8]
}

/// The bytes of the substring `key`.
pub open spec fn key_word() -> Seq<u8> {
    seq![107u8, 101u8, 121u8]
}

/// The name heuristic for lid/keyboard-adjacent switch hardware: the name
/// contains `gpio` or `key`, case-insensitively.
pub open spec fn name_matches_heuristic(name: Seq<u8>) -> bool {
    contains_ci(name, gpio_word()) || contains_ci(name, key_word())
}

/// The bytes of the prefix `event` of an enumerated device node's file name.
pub open spec fn event_prefix() -> Seq<u8> {
    seq![101u8, 118u8, 101u8, 110u8, 116u8]
}

/// Whether a scanned, opened device is the one the fallback picks when it
/// comes first: it has a name matching the heuristic and reports
/// switch-event support.
pub open spec fn candidate_matches(c: ScanCandidate) -> bool {
    &&& c.name matches Some(n) && name_matches_heuristic(n@)
    &&& c.has_switch_support
}

/// Decide the resolver's next step from the primary probe: a switch-capable
/// primary device is used as it stands; a primary that could not be opened,
/// or that opened without any switch support, degrades to the directory scan,
/// the two reasons kept apart so the degradation is surfaced distinctly.
pub fn primary_decision(probe: PrimaryProbe) -> (r: ResolverStep)
    ensures
        probe is Capable ==> r is UsePrimary,
        probe is NoSwitchSupport ==> r == (ResolverStep::ScanFallback { primary_opened: true }),
        probe is OpenFailed ==> r == (ResolverStep::ScanFallback { primary_opened: false }),
{
    match probe {
        PrimaryProbe::Capable => ResolverStep::UsePrimary,
        PrimaryProbe::NoSwitchSupport => ResolverStep::ScanFallback { primary_opened: true },
        PrimaryProbe::OpenFailed => ResolverStep::ScanFallback { primary_opened: false },
    }
}

fn lower_byte(b: u8) -> (r: u8)
    ensures
        r == ascii_lower(b),
{
    if 65 <= b && b <= 90 {
        b + 32
    } else {
        b
    }
}

fn contains_ci_exec(h: &Vec<u8>, n: &Vec<u8>) -> (r: bool)
    ensures
        r <==> contains_ci(h@, n@),
{
    if n.len() > h.len() {
        return false;
    }
    let bound: usize = h.len() - n.len();
    let mut i: usize = 0;
    loop
        invariant
            n@.len() <= h@.len(),
            h@.len() <= usize::MAX,
            bound == h@.len() - n@.len(),
            i <= bound,
            forall|k: int| 0 <= k < i ==> !matches_at_ci(h@, n@, k),
        decreases bound - i,
    {
        let mut j: usize = 0;
        let mut hit: bool = true;
        while j < n.len()
            invariant
                n@.len() <= h@.len(),
                h@.len() <= usize::MAX,
                i + n@.len() <= h@.len(),
                j <= n@.len(),
                hit ==> forall|l: int| 0 <= l < j ==> ascii_lower(h@[i + l]) == ascii_lower(n@[l]),
                !hit ==> !matches_at_ci(h@, n@, i as int),
            decreases n@.len() - j,
        {
            if lower_byte(h[i + j]) != lower_byte(n[j]) {
                proof {
                    assert(!matches_at_ci(h@, n@, i as int));
                }
                hit = false;
            }
            j = j + 1;
        }
        if hit {
            proof {
                assert(matches_at_ci(h@, n@, i as int));
            }
            return true;
        }
        if i == bound {
            return false;
        }
        i = i + 1;
    }
}

/// Decide whether a device's human-readable name matches the lid-hardware
/// heuristic: it contains `gpio` or `key`, case-insensitively.
pub fn name_matches_lid_heuristic(name: &Vec<u8>) -> (r: bool)
    ensures
        r <==> name_matches_heuristic(name@),
{
    let mut gpio: Vec<u8> = Vec::new();
    gpio.push(103);
    gpio.push(112);
    gpio.push(105);
    gpio.push(111);
    proof {
        assert(gpio@ =~= gpio_word());
    }
    if contains_ci_exec(name, &gpio) {
        return true;
    }
    let mut key: Vec<u8> = Vec::new();
    key.push(107);
    key.push(101);
    key.push(121);
    proof {
        assert(key@ =~= key_word());
    }
    contains_ci_exec(name, &key)
}

/// Decide whether a directory entry's file name is an enumerated input-device
/// node, that is, starts with `event`.
pub fn is_event_node(file_name: &Vec<u8>) -> (r: bool)
    ensures
        r <==> (file_name@.len() >= 5 && file_name@.subrange(0, 5) == event_prefix()),
{
    if file_name.len() < 5 {
        return false;
    }
    let r: bool = file_name[0] == 101 && file_name[1] == 118 && file_name[2] == 101
        && file_name[3] == 110 && file_name[4] == 116;
    proof {
        let p = file_name@.subrange(0, 5);
        if r {
            assert(p =~= event_prefix());
        } else {
            assert(p != event_prefix()) by {
                if p == event_prefix() {
                    assert(p[0] == 101 && p[1] == 118 && p[2] == 101 && p[3] == 110
                        && p[4] == 116);
                }
            }
        }
    }
    r
}

/// Pick the fallback device from the scanned candidates, in scan order:
/// the first whose name matches the heuristic and which reports switch-event
/// support, and none exactly when no candidate qualifies — in which case the
/// whole resolution fails.
pub fn select_lid_candidate(candidates: &Vec<ScanCandidate>) -> (r: Option<usize>)
    ensures
        r matches Some(i) ==> i < candidates@.len() && candidate_matches(candidates@[i as int])
            && (forall|j: int| 0 <= j < i ==> !candidate_matches(candidates@[j])),
        r is None ==> forall|j: int|
            0 <= j < candidates@.len() ==> !candidate_matches(candidates@[j]),
{
    let mut i: usize = 0;
    while i < candidates.len()
        invariant
            i <= candidates@.len(),
            forall|j: int| 0 <= j < i ==> !candidate_matches(candidates@[j]),
        decreases candidates@.len() - i,
    {
        let c = &candidates[i];
        let hit: bool = match &c.name {
            Some(n) => name_matches_lid_heuristic(n),
            None => false,
        };
        if hit && c.has_switch_support {
            proof {
                assert(candidate_matches(candidates@[i as int]));
            }
            return Some(i);
        }
        proof {
            assert(!candidate_matches(candidates@[i as int]));
        }
        i = i + 1;
    }
    None
}

} // verus!
