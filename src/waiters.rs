//! The waiter table: one single-use reply channel per dispatched job id.

use vstd::prelude::*;
use crate::platform::fulfil;
use crate::protocol::{AckResponse, AckStatus};
use crate::text::same_text;
use tokio::sync::oneshot::Sender;

verus! {

/// A job that has been answered, and how.
#[derive(Debug)]
pub struct Resolution {
    pub job_id: String,
    pub response: AckResponse,
}

/// The job ids that `rs` answered, in order.
pub open spec fn resolved_ids(rs: Seq<Resolution>) -> Seq<Seq<char>> {
    rs.map_values(|r: Resolution| r.job_id@)
}

/// `r` answers with `status` and the reason `reason`.
pub open spec fn answers_with(r: AckResponse, status: AckStatus, reason: Seq<char>) -> bool {
    &&& r.status == status
    &&& r.error matches Some(e) && e@ == reason
}

/// `rs` answers each id of `ids` once, and nothing else, all with `status` and `reason`.
pub open spec fn drained(rs: Seq<Resolution>, ids: Set<Seq<char>>, status: AckStatus, reason: Seq<char>) -> bool {
    &&& resolved_ids(rs).no_duplicates()
    &&& resolved_ids(rs).to_set() == ids
    &&& forall|i: int| 0 <= i < rs.len() ==> answers_with(#[trigger] rs[i].response, status, reason)
}

pub(crate) struct Waiter {
    pub(crate) job_id: String,
    pub(crate) reply: Sender<AckResponse>,
}

pub(crate) open spec fn ids_of(ws: Seq<Waiter>) -> Seq<Seq<char>> {
    ws.map_values(|w: Waiter| w.job_id@)
}

/// Index of the waiter for `id`.
pub(crate) fn find_waiter(ws: &Vec<Waiter>, id: &str) -> (r: Option<usize>)
    ensures
        match r {
            Some(i) => i < ws@.len() && ids_of(ws@)[i as int] == id@,
            None => !ids_of(ws@).contains(id@),
        },
{
    let mut i: usize = 0;
    while i < ws.len()
        invariant
            i <= ws.len(),
            forall|k: int| 0 <= k < i ==> (#[trigger] ws@[k]).job_id@ != id@,
        decreases ws.len() - i,
    {
        if same_text(ws[i].job_id.as_str(), id) {
            return Some(i);
        }
        i = i + 1;
    }
    assert(!ids_of(ws@).contains(id@)) by {
        if ids_of(ws@).contains(id@) {
            let k = choose|k: int| 0 <= k < ids_of(ws@).len() && ids_of(ws@)[k] == id@;
            assert(ws@[k].job_id@ == id@);
        }
    }
    None
}

proof fn lemma_remove_unique(s: Seq<Seq<char>>, i: int)
    requires
        0 <= i < s.len(),
        s.no_duplicates(),
    ensures
        s.remove(i).no_duplicates(),
        s.remove(i).to_set() == s.to_set().remove(s[i]),
{
    let t = s.remove(i);
    assert forall|a: int, b: int| 0 <= a < t.len() && 0 <= b < t.len() && a != b implies t[a] != t[b] by {
        let oa = if a < i { a } else { a + 1 };
        let ob = if b < i { b } else { b + 1 };
        assert(t[a] == s[oa] && t[b] == s[ob]);
    }
    assert forall|x: Seq<char>| #[trigger] t.to_set().contains(x) == s.to_set().remove(s[i]).contains(x) by {
        if t.contains(x) {
            let j = choose|j: int| 0 <= j < t.len() && t[j] == x;
            let oj = if j < i { j } else { j + 1 };
            assert(s[oj] == x);
        }
        if s.contains(x) && x != s[i] {
            let j = choose|j: int| 0 <= j < s.len() && s[j] == x;
            let nj = if j < i { j } else { j - 1 };
            assert(t[nj] == x);
        }
    }
    assert(t.to_set() =~= s.to_set().remove(s[i]));
}

proof fn lemma_push_unique(s: Seq<Seq<char>>, x: Seq<char>)
    requires
        s.no_duplicates(),
        !s.contains(x),
    ensures
        s.push(x).no_duplicates(),
        s.push(x).to_set() == s.to_set().insert(x),
{
    let t = s.push(x);
    assert forall|a: int, b: int| 0 <= a < t.len() && 0 <= b < t.len() && a != b implies t[a] != t[b] by {
        if a < s.len() && b < s.len() {
        } else if a < s.len() {
            assert(s.contains(t[a]));
        } else {
            assert(s.contains(t[b]));
        }
    }
    assert forall|y: Seq<char>| #[trigger] t.to_set().contains(y) == s.to_set().insert(x).contains(y) by {
        if t.contains(y) {
            let j = choose|j: int| 0 <= j < t.len() && t[j] == y;
            if j < s.len() {
                assert(s[j] == y);
            }
        }
        if s.contains(y) {
            let j = choose|j: int| 0 <= j < s.len() && s[j] == y;
            assert(t[j] == y);
        }
        if y == x {
            assert(t[s.len() as int] == y);
        }
    }
    assert(t.to_set() =~= s.to_set().insert(x));
}

/// Removes the waiter for `id`, handing back its reply channel.
pub(crate) fn take_waiter(ws: &mut Vec<Waiter>, id: &str) -> (r: Option<Sender<AckResponse>>)
    requires
        ids_of(old(ws)@).no_duplicates(),
    ensures
        ids_of(final(ws)@).no_duplicates(),
        ids_of(final(ws)@).to_set() == ids_of(old(ws)@).to_set().remove(id@),
        r is Some <==> ids_of(old(ws)@).contains(id@),
{
    match find_waiter(ws, id) {
        Some(i) => {
            let ghost before = ids_of(ws@);
            let w = ws.remove(i);
            proof {
                assert(ids_of(ws@) =~= before.remove(i as int));
                lemma_remove_unique(before, i as int);
                assert(before.contains(id@)) by {
                    assert(before[i as int] == id@);
                }
            }
            Some(w.reply)
        },
        None => {
            proof {
                assert(ids_of(ws@).to_set() =~= ids_of(ws@).to_set().remove(id@));
            }
            None
        },
    }
}

/// Adds a waiter for `id`; a waiter already there for the same id is dropped,
/// so that its receiver sees the channel close.
pub(crate) fn put_waiter(ws: &mut Vec<Waiter>, id: String, reply: Sender<AckResponse>)
    requires
        ids_of(old(ws)@).no_duplicates(),
    ensures
        ids_of(final(ws)@).no_duplicates(),
        ids_of(final(ws)@).to_set() == ids_of(old(ws)@).to_set().insert(id@),
{
    let _ = take_waiter(ws, id.as_str());
    let ghost mid = ids_of(ws@);
    proof {
        assert(!mid.contains(id@)) by {
            if mid.contains(id@) {
                assert(mid.to_set().contains(id@));
            }
        }
        lemma_push_unique(mid, id@);
    }
    ws.push(Waiter { job_id: id, reply });
    proof {
        assert(ids_of(ws@) =~= mid.push(id@));
        assert(ids_of(ws@).to_set() =~= ids_of(old(ws)@).to_set().insert(id@));
    }
}

/// Answers every waiter with `status` and `reason`, and lists what was answered.
pub(crate) fn drain_waiters(ws: Vec<Waiter>, status: AckStatus, reason: &str) -> (r: Vec<Resolution>)
    requires
        ids_of(ws@).no_duplicates(),
    ensures
        drained(r@, ids_of(ws@).to_set(), status, reason@),
{
    let ghost all = ids_of(ws@);
    let mut r: Vec<Resolution> = Vec::new();
    for w in it: ws.into_iter()
        invariant
            it.seq() == ws@,
            all == ids_of(ws@),
            resolved_ids(r@) == all.subrange(0, it.index() as int),
            forall|i: int| 0 <= i < r@.len() ==> answers_with(#[trigger] r@[i].response, status, reason@),
    {
        let ghost before = r@;
        fulfil(w.reply, AckResponse { status, error: Some(String::from_str(reason)) });
        r.push(Resolution { job_id: w.job_id, response: AckResponse { status, error: Some(String::from_str(reason)) } });
        proof {
            assert(resolved_ids(r@) =~= resolved_ids(before).push(r@[r@.len() - 1].job_id@));
            assert(all.subrange(0, it.index() + 1) =~= all.subrange(0, it.index() as int).push(all[it.index() as int]));
        }
    }
    assert(all.subrange(0, all.len() as int) =~= all);
    r
}

} // verus!
