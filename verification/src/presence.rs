//! The external-display presence probe's parsing logic: a display output's
//! status file reports the output connected exactly when its content, with
//! surrounding whitespace trimmed, is the literal word `connected`. Presence
//! holds when either of the two fixed status sources reports connected.

use vstd::prelude::*;
use crate::decision::ProbeResult;

verus! {

/// ASCII whitespace, as found around the word in a status file.
pub open spec fn is_ascii_space(b: u8) -> bool {
    b == 32 || b == 9 || b == 10 || b == 11 || b == 12 || b == 13
}

/// The sequence with leading whitespace removed.
pub open spec fn trim_start(s: Seq<u8>) -> Seq<u8>
    decreases s.len(),
{
    if s.len() > 0 && is_ascii_space(s[0]) {
        trim_start(s.drop_first())
    } else {
        s
    }
}

/// The sequence with trailing whitespace removed.
pub open spec fn trim_end(s: Seq<u8>) -> Seq<u8>
    decreases s.len(),
{
    if s.len() > 0 && is_ascii_space(s.last()) {
        trim_end(s.drop_last())
    } else {
        s
    }
}

/// The sequence with whitespace removed from both ends.
pub open spec fn trimmed(s: Seq<u8>) -> Seq<u8> {
    trim_end(trim_start(s))
}

/// The bytes of the word `connected`.
pub open spec fn connected_word() -> Seq<u8> {
    seq![99u8, 111u8, 110u8, 110u8, 101u8, 99u8, 116u8, 101u8, 100u8]
}

/// Whether a status file's content signals a connected output.
pub open spec fn reports_connected(s: Seq<u8>) -> bool {
    trimmed(s) == connected_word()
}

/// Whether one status source, read as bytes where it could be read at all,
/// reports a connected output.
pub open spec fn source_reports_connected(s: Option<Vec<u8>>) -> bool {
    s matches Some(c) && reports_connected(c@)
}

proof fn lemma_trim_start_skip(s: Seq<u8>, k: int)
    requires
        0 <= k <= s.len(),
        forall|i: int| 0 <= i < k ==> is_ascii_space(s[i]),
    ensures
        trim_start(s) == trim_start(s.skip(k)),
    decreases k,
{
    if k == 0 {
        assert(s.skip(0) =~= s);
    } else {
        assert(is_ascii_space(s[0]));
        assert(s.drop_first() =~= s.skip(1));
        assert(forall|i: int| 0 <= i < k - 1 ==> is_ascii_space(s.skip(1)[i]));
        lemma_trim_start_skip(s.skip(1), k - 1);
        assert(s.skip(1).skip(k - 1) =~= s.skip(k));
    }
}

proof fn lemma_trim_end_take(s: Seq<u8>, k: int)
    requires
        0 <= k <= s.len(),
        forall|i: int| k <= i < s.len() ==> is_ascii_space(s[i]),
    ensures
        trim_end(s) == trim_end(s.take(k)),
    decreases s.len() - k,
{
    if k == s.len() {
        assert(s.take(k) =~= s);
    } else {
        assert(is_ascii_space(s.last()));
        assert(s.drop_last() =~= s.take(s.len() - 1));
        assert(forall|i: int| k <= i < s.len() - 1 ==> is_ascii_space(#[trigger] s.take(s.len() - 1)[i]));
        lemma_trim_end_take(s.take(s.len() - 1), k);
        assert(s.take(s.len() - 1).take(k) =~= s.take(k));
    }
}

fn byte_is_space(b: u8) -> (r: bool)
    ensures
        r <==> is_ascii_space(b),
{
    b == 32 || b == 9 || b == 10 || b == 11 || b == 12 || b == 13
}

/// Decide whether one status file's content, with surrounding whitespace
/// trimmed, is exactly the word `connected`.
pub fn status_reports_connected(content: &Vec<u8>) -> (r: bool)
    ensures
        r <==> reports_connected(content@),
{
    let n: usize = content.len();
    let mut lo: usize = 0;
    while lo < n && byte_is_space(content[lo])
        invariant
            n == content@.len(),
            lo <= n,
            forall|i: int| 0 <= i < lo ==> is_ascii_space(content@[i]),
        decreases n - lo,
    {
        lo = lo + 1;
    }
    let mut hi: usize = n;
    while hi > lo && byte_is_space(content[hi - 1])
        invariant
            n == content@.len(),
            lo <= hi <= n,
            forall|i: int| hi <= i < n ==> is_ascii_space(content@[i]),
            lo == n || !is_ascii_space(content@[lo as int]),
        decreases hi,
    {
        hi = hi - 1;
    }
    proof {
        lemma_trim_start_skip(content@, lo as int);
        let t = content@.skip(lo as int);
        if lo < n {
            assert(t[0] == content@[lo as int]);
        }
        assert(trim_start(t) == t);
        assert(forall|i: int| hi - lo <= i < t.len() ==> is_ascii_space(t[i]));
        lemma_trim_end_take(t, hi - lo);
        let u = t.take(hi - lo);
        if hi > lo {
            assert(u.last() == content@[hi - 1]);
            assert(!is_ascii_space(u.last()));
        }
        assert(trim_end(u) == u);
        assert(trimmed(content@) == u);
        assert(u =~= content@.subrange(lo as int, hi as int));
    }
    if hi - lo != 9 {
        proof {
            assert(connected_word().len() == 9);
            assert(trimmed(content@).len() != 9);
        }
        return false;
    }
    let eq: bool = content[lo] == 99 && content[lo + 1] == 111 && content[lo + 2] == 110
        && content[lo + 3] == 110 && content[lo + 4] == 101 && content[lo + 5] == 99
        && content[lo + 6] == 116 && content[lo + 7] == 101 && content[lo + 8] == 100;
    proof {
        let u = content@.subrange(lo as int, hi as int);
        if eq {
            assert(u =~= connected_word());
        } else {
            assert(u != connected_word()) by {
                if u == connected_word() {
                    assert(u[0] == 99 && u[1] == 111 && u[2] == 110 && u[3] == 110 && u[4] == 101
                        && u[5] == 99 && u[6] == 116 && u[7] == 101 && u[8] == 100);
                }
            }
        }
    }
    eq
}

/// Decide external-display presence from the two fixed status sources, each
/// read as bytes where the read succeeded: present exactly when either source
/// reports a connected output. A source that could not be read counts as not
/// connected, so the probe itself never fails.
pub fn external_display_present(dp1: &Option<Vec<u8>>, dp2: &Option<Vec<u8>>) -> (r: bool)
    ensures
        r <==> (source_reports_connected(*dp1) || source_reports_connected(*dp2)),
{
    let first: bool = match dp1 {
        Some(c) => status_reports_connected(c),
        None => false,
    };
    if first {
        return true;
    }
    match dp2 {
        Some(c) => status_reports_connected(c),
        None => false,
    }
}

/// The probe outcome the decision engine consumes, from the two fixed status
/// sources: `Present` exactly when either source reports connected, `Absent`
/// otherwise, and never `Failed` — an unreadable source merely counts as not
/// connected.
pub fn probe_outcome(dp1: &Option<Vec<u8>>, dp2: &Option<Vec<u8>>) -> (r: ProbeResult)
    ensures
        r is Present <==> (source_reports_connected(*dp1) || source_reports_connected(*dp2)),
        r is Present || r is Absent,
{
    if external_display_present(dp1, dp2) {
        ProbeResult::Present
    } else {
        ProbeResult::Absent
    }
}

} // verus!
