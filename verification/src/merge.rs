//! The ingestion merger: how a freshly extracted batch joins the persisted
//! dataset.
//!
//! The decision guards against duplicate ingestion twice over. The primary
//! guard rejects a batch whose session id already appears in the existing
//! dataset. The secondary guard is a deliberately bounded heuristic: it
//! samples the first few URB ids of the new batch against the first ids of
//! the existing dataset and rejects on enough overlap, catching the same
//! capture re-ingested under a different session id. The sampling keeps the
//! check cheap on large datasets; it can miss duplicates and is a best-effort
//! safety net, not a guarantee.

use vstd::prelude::*;

use crate::record::PacketRecord;

verus! {

/// How many URB ids of the new batch the duplicate heuristic samples.
pub const NEW_ID_SAMPLE_LIMIT: usize = 5;

/// How many URB ids of the existing dataset the heuristic samples.
pub const EXISTING_ID_SAMPLE_LIMIT: usize = 100;

/// How many sampled new ids must already be present for a reject.
pub const DUPLICATE_ID_THRESHOLD: usize = 2;

/// The persisted table, read back in full for an append.
pub struct Dataset {
    pub rows: Vec<PacketRecord>,
}

/// Why a batch was rejected; nothing is written.
#[derive(Debug, Clone, Copy, PartialEq, Eq, Structural)]
pub enum RejectReason {
    /// The existing dataset already holds this session id.
    DuplicateSession,
    /// Sampled URB ids of the new batch already appear in the existing
    /// dataset: likely the same capture under another session id.
    LikelyDuplicateContent,
}

/// What the merger decided; only `Replace` and `Combined` carry a table to
/// persist, the other outcomes leave the existing dataset untouched.
pub enum MergeOutcome {
    /// The batch was empty: nothing to write, zero records reported.
    EmptyBatch,
    /// Write the new records as the entire dataset.
    Replace(Vec<PacketRecord>),
    /// Write the union: existing rows first, new rows after, in order.
    Combined(Vec<PacketRecord>),
    /// Write nothing; the reason names the guard that fired.
    Rejected(RejectReason),
}

/// Some row of `rows` carries session id `sid`.
pub open spec fn has_session(rows: Seq<PacketRecord>, sid: Seq<char>) -> bool {
    exists|i: int| 0 <= i < rows.len() && rows[i].session_id@ == sid
}

/// The sampled prefix length: the whole of `len` up to `cap`.
pub open spec fn sample_count(len: int, cap: int) -> int {
    if len < cap {
        len
    } else {
        cap
    }
}

/// `id` appears among the sampled URB ids of the existing dataset.
pub open spec fn id_among_sampled(rows: Seq<PacketRecord>, id: Seq<char>) -> bool {
    exists|i: int|
        0 <= i < sample_count(rows.len() as int, EXISTING_ID_SAMPLE_LIMIT as int)
            && rows[i].urb_id@ == id
}

/// How many of the first `j` new rows carry a sampled existing URB id.
pub open spec fn overlap_up_to(new: Seq<PacketRecord>, ex: Seq<PacketRecord>, j: int) -> int
    decreases j,
{
    if j <= 0 {
        0
    } else {
        overlap_up_to(new, ex, j - 1) + if id_among_sampled(ex, new[j - 1].urb_id@) {
            1int
        } else {
            0int
        }
    }
}

/// The heuristic's count: sampled new URB ids already present.
pub open spec fn sampled_overlap(new: Seq<PacketRecord>, ex: Seq<PacketRecord>) -> int {
    overlap_up_to(new, ex, sample_count(new.len() as int, NEW_ID_SAMPLE_LIMIT as int))
}

/// The secondary guard fires: enough sampled overlap.
pub open spec fn likely_duplicate(new: Seq<PacketRecord>, ex: Seq<PacketRecord>) -> bool {
    sampled_overlap(new, ex) >= DUPLICATE_ID_THRESHOLD
}

/// The merge accepts and combines: append was asked, a dataset exists, and
/// neither duplicate guard fires.
pub open spec fn merge_combines(
    new: Seq<PacketRecord>,
    existing: Option<Dataset>,
    sid: Seq<char>,
    append_requested: bool,
) -> bool {
    &&& new.len() > 0
    &&& append_requested
    &&& existing is Some
    &&& !has_session(existing.unwrap().rows@, sid)
    &&& !likely_duplicate(new, existing.unwrap().rows@)
}

/// Decide and perform the combination of a new batch with the existing
/// dataset.
///
/// An empty batch short-circuits; without an append request, or without an
/// existing dataset, the batch replaces the dataset whole; otherwise the two
/// duplicate guards run in order, and only when both pass are the rows
/// combined, existing first, new after, each side in its own order.
#[verifier::loop_isolation(false)]
pub fn merge(
    new_records: Vec<PacketRecord>,
    existing: Option<Dataset>,
    session_id: &str,
    append_requested: bool,
) -> (r: MergeOutcome)
    ensures
        r is EmptyBatch <==> new_records@.len() == 0,
        r is Replace <==> new_records@.len() > 0 && (!append_requested || existing is None),
        r matches MergeOutcome::Replace(v) ==> v == new_records,
        (r matches MergeOutcome::Rejected(reason) && reason is DuplicateSession) <==> (new_records@.len() > 0
            && append_requested && existing is Some && has_session(
            existing.unwrap().rows@,
            session_id@,
        )),
        (r matches MergeOutcome::Rejected(reason) && reason is LikelyDuplicateContent) <==> (
        new_records@.len() > 0 && append_requested && existing is Some && !has_session(
            existing.unwrap().rows@,
            session_id@,
        ) && likely_duplicate(new_records@, existing.unwrap().rows@)),
        r is Combined <==> merge_combines(new_records@, existing, session_id@, append_requested),
        r matches MergeOutcome::Combined(v) ==> v@ == existing.unwrap().rows@ + new_records@,
{
    if new_records.len() == 0 {
        return MergeOutcome::EmptyBatch;
    }
    if !append_requested {
        return MergeOutcome::Replace(new_records);
    }
    let ds = match existing {
        Some(d) => d,
        None => {
            return MergeOutcome::Replace(new_records);
        },
    };
    let sid = String::from_str(session_id);

    // Primary guard: the session id must be new to the dataset.
    let n_ex = ds.rows.len();
    let mut i: usize = 0;
    while i < n_ex
        invariant
            0 <= i <= n_ex,
            n_ex == ds.rows@.len(),
            sid@ == session_id@,
            forall|j: int| 0 <= j < i ==> #[trigger] ds.rows@[j].session_id@ != session_id@,
        decreases n_ex - i,
    {
        if ds.rows[i].session_id == sid {
            assert(has_session(ds.rows@, session_id@));
            return MergeOutcome::Rejected(RejectReason::DuplicateSession);
        }
        i = i + 1;
    }
    assert(!has_session(ds.rows@, session_id@));

    // Secondary guard: bounded sampling of URB ids on both sides.
    let ex_cap = if n_ex < EXISTING_ID_SAMPLE_LIMIT {
        n_ex
    } else {
        EXISTING_ID_SAMPLE_LIMIT
    };
    let n_new = new_records.len();
    let new_cap = if n_new < NEW_ID_SAMPLE_LIMIT {
        n_new
    } else {
        NEW_ID_SAMPLE_LIMIT
    };
    let mut overlap: usize = 0;
    let mut j: usize = 0;
    while j < new_cap
        invariant
            0 <= j <= new_cap,
            overlap <= j,
            new_cap == sample_count(new_records@.len() as int, NEW_ID_SAMPLE_LIMIT as int),
            ex_cap == sample_count(ds.rows@.len() as int, EXISTING_ID_SAMPLE_LIMIT as int),
            ex_cap <= ds.rows@.len(),
            new_cap <= new_records@.len(),
            overlap == overlap_up_to(new_records@, ds.rows@, j as int),
        decreases new_cap - j,
    {
        let mut found = false;
        let mut k: usize = 0;
        while k < ex_cap
            invariant
                0 <= k <= ex_cap,
                ex_cap == sample_count(ds.rows@.len() as int, EXISTING_ID_SAMPLE_LIMIT as int),
                ex_cap <= ds.rows@.len(),
                0 <= j < new_cap <= new_records@.len(),
                found <==> exists|t: int|
                    0 <= t < k && ds.rows@[t].urb_id@ == new_records@[j as int].urb_id@,
            decreases ex_cap - k,
        {
            if ds.rows[k].urb_id == new_records[j].urb_id {
                found = true;
            }
            k = k + 1;
        }
        assert(found <==> id_among_sampled(ds.rows@, new_records@[j as int].urb_id@));
        if found {
            overlap = overlap + 1;
        }
        j = j + 1;
    }
    if overlap >= DUPLICATE_ID_THRESHOLD {
        return MergeOutcome::Rejected(RejectReason::LikelyDuplicateContent);
    }

    // Both guards passed: existing rows first, new rows appended in order.
    let mut rows = ds.rows;
    let mut tail = new_records;
    rows.append(&mut tail);
    MergeOutcome::Combined(rows)
}

} // verus!
