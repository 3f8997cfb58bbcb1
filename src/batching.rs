//! Batches of the loader: the cap on documents, splitting a batch among
//! workers, the lines of a bulk-index request, and the count of confirmed items.

use vstd::prelude::*;

verus! {

/// Header line that precedes each document of a bulk-index request.
pub const BULK_INDEX_HEADER: &'static str = "{\"index\":{}}";

/// Start of sub-batch `k` when `n` records are shared among `p` workers:
/// the first `n % p` sub-batches hold one record more than the others.
pub open spec fn sub_batch_start(k: int, n: int, p: int) -> int {
    k * (n / p) + if k < n % p { k } else { n % p }
}

/// Number of sub-batches: one per worker, but no empty one.
pub open spec fn sub_batch_count(n: int, p: int) -> int {
    if n < p { n } else { p }
}

proof fn lemma_start_bounds(k: int, n: int, p: int)
    requires
        0 <= k <= p,
        p > 0,
        n >= 0,
    ensures
        0 <= sub_batch_start(k, n, p) <= n,
        sub_batch_start(p, n, p) == n,
        k < p ==> sub_batch_start(k + 1, n, p) == sub_batch_start(k, n, p) + n / p + if k < n % p { 1int } else { 0int },
{
    let q = n / p;
    let r = n % p;
    assert(n == p * q + r && 0 <= r < p) by (nonlinear_arith)
        requires p > 0, n >= 0, q == n / p, r == n % p;
    assert(0 <= k * q <= p * q) by (nonlinear_arith)
        requires 0 <= k <= p, q >= 0;
    assert((k + 1) * q == k * q + q) by (nonlinear_arith);
    assert(q >= 0) by (nonlinear_arith) requires p > 0, n >= 0, q == n / p;
    if k < p {
        assert((k + 1) * q <= p * q) by (nonlinear_arith)
            requires k + 1 <= p, q >= 0;
    }
}

/// Splits `n` records among `workers` workers into contiguous sub-batches
/// `[start, end)` of near-equal size, in order, none of them empty. With no
/// worker the whole batch forms one sub-batch.
pub fn sub_batches(n: usize, workers: usize) -> (r: Vec<(usize, usize)>)
    ensures
        ({
            let p = if workers == 0 { 1int } else { workers as int };
            &&& r@.len() == sub_batch_count(n as int, p)
            &&& forall|k: int| 0 <= k < r@.len() ==> {
                &&& (#[trigger] r@[k]).0 == sub_batch_start(k, n as int, p)
                &&& r@[k].1 == sub_batch_start(k + 1, n as int, p)
                &&& r@[k].0 < r@[k].1
            }
        }),
        n == 0 ==> r@.len() == 0,
        n > 0 ==> r@[0].0 == 0 && r@.last().1 == n,
        forall|k: int| 0 <= k < r@.len() - 1 ==> (#[trigger] r@[k]).1 == r@[k + 1].0,
{
    let p: usize = if workers == 0 { 1 } else { workers };
    let q: usize = n / p;
    let rem: usize = n % p;
    let count: usize = if n < p { n } else { p };
    let mut out: Vec<(usize, usize)> = Vec::new();
    let mut start: usize = 0;
    let mut k: usize = 0;
    proof {
        lemma_start_bounds(0, n as int, p as int);
    }
    while k < count
        invariant
            count == sub_batch_count(n as int, p as int),
            p > 0,
            q == n / p,
            rem == n % p,
            count <= p,
            k <= count,
            start == sub_batch_start(k as int, n as int, p as int),
            out@.len() == k,
            forall|j: int| 0 <= j < k ==> {
                &&& (#[trigger] out@[j]).0 == sub_batch_start(j, n as int, p as int)
                &&& out@[j].1 == sub_batch_start(j + 1, n as int, p as int)
                &&& out@[j].0 < out@[j].1
            },
        decreases count - k,
    {
        proof {
            lemma_start_bounds(k as int, n as int, p as int);
            lemma_start_bounds(k as int + 1, n as int, p as int);
            if n < p {
                assert(q == 0) by (nonlinear_arith) requires n < p, q == n / p, n >= 0;
                assert(rem == n) by (nonlinear_arith) requires n < p, rem == n % p, n >= 0;
            } else {
                assert(q >= 1) by (nonlinear_arith) requires n >= p, q == n / p, p > 0;
            }
        }
        let size: usize = if k < rem { q + 1 } else { q };
        let end: usize = start + size;
        out.push((start, end));
        start = end;
        k = k + 1;
    }
    proof {
        let pi = p as int;
        let ni = n as int;
        if ni < pi {
            assert(n / p == 0) by (nonlinear_arith) requires n < p, n >= 0, p > 0;
            assert(n % p == n) by (nonlinear_arith) requires n < p, n >= 0, p > 0;
            assert(ni * (n / p) as int == 0) by (nonlinear_arith) requires n / p == 0;
            assert(sub_batch_start(ni, ni, pi) == ni);
        } else {
            lemma_start_bounds(pi, ni, pi);
        }
        if n > 0 {
            assert(sub_batch_start(0, ni, pi) == 0);
        }
    }
    out
}

/// The number of records of a pulled batch that may still be enriched and
/// indexed, when `indexed` of at most `max` are already in.
pub open spec fn batch_take(offered: nat, indexed: nat, max: nat) -> nat {
    let room = if indexed <= max { max - indexed } else { 0 };
    if offered <= room { offered } else { room as nat }
}

/// Documents indexed once batches of the given sizes have been pulled,
/// each cut to the room that the cap `max` leaves.
pub open spec fn indexed_after(offered: Seq<nat>, max: nat) -> nat
    decreases offered.len(),
{
    if offered.len() == 0 {
        0
    } else {
        let before = indexed_after(offered.drop_last(), max);
        before + batch_take(offered.last(), before, max)
    }
}

/// A batch enriches no more than the cap leaves room for.
pub proof fn lemma_batch_within_room(offered: nat, indexed: nat, max: nat)
    requires
        indexed <= max,
    ensures
        batch_take(offered, indexed, max) <= max - indexed,
        batch_take(offered, indexed, max) <= offered,
{
}

/// However many records the source offers, in whatever batches, a run
/// indexes at most `max` documents.
pub proof fn lemma_cap_never_exceeded(offered: Seq<nat>, max: nat)
    ensures
        indexed_after(offered, max) <= max,
    decreases offered.len(),
{
    if offered.len() > 0 {
        lemma_cap_never_exceeded(offered.drop_last(), max);
        lemma_batch_within_room(offered.last(), indexed_after(offered.drop_last(), max), max);
    }
}

/// Whether a per-item status of a bulk response reports the item written.
pub open spec fn is_success_status(status: u16) -> bool {
    200 <= status && status < 300
}

/// Number of items of a bulk response that report success.
pub open spec fn count_successes(statuses: Seq<u16>) -> nat
    decreases statuses.len(),
{
    if statuses.len() == 0 {
        0
    } else {
        count_successes(statuses.drop_last()) + if is_success_status(statuses.last()) { 1nat } else { 0nat }
    }
}

/// Counts the items of a bulk response that the store reports as written,
/// from their statuses.
pub fn confirmed_count(statuses: &Vec<u16>) -> (r: usize)
    ensures
        r == count_successes(statuses@),
        r <= statuses@.len(),
{
    let mut n: usize = 0;
    let mut i: usize = 0;
    while i < statuses.len()
        invariant
            i <= statuses@.len(),
            n == count_successes(statuses@.take(i as int)),
            n <= i,
        decreases statuses@.len() - i,
    {
        assert(statuses@.take(i + 1).drop_last() =~= statuses@.take(i as int));
        let s = statuses[i];
        if 200 <= s && s < 300 {
            n = n + 1;
        }
        i = i + 1;
    }
    assert(statuses@.take(i as int) =~= statuses@);
    n
}

/// Builds the body of a bulk-index request from serialised documents: a
/// header line, then the document, for each document in order.
pub fn bulk_body(docs: &Vec<String>) -> (r: Vec<String>)
    ensures
        r@.len() == 2 * docs@.len(),
        forall|i: int| 0 <= i < docs@.len() ==> (#[trigger] r@[2 * i])@ == BULK_INDEX_HEADER@,
        forall|i: int| 0 <= i < docs@.len() ==> (#[trigger] r@[2 * i + 1])@ == docs@[i]@,
{
    let mut out: Vec<String> = Vec::new();
    let mut i: usize = 0;
    while i < docs.len()
        invariant
            i <= docs@.len(),
            out@.len() == 2 * i,
            forall|j: int| 0 <= j < i ==> (#[trigger] out@[2 * j])@ == BULK_INDEX_HEADER@,
            forall|j: int| 0 <= j < i ==> (#[trigger] out@[2 * j + 1])@ == docs@[j]@,
        decreases docs@.len() - i,
    {
        let ghost before = out@;
        let header = String::from_str(BULK_INDEX_HEADER);
        let doc = docs[i].clone();
        out.push(header);
        out.push(doc);
        assert forall|j: int| 0 <= j < i + 1 implies (#[trigger] out@[2 * j])@ == BULK_INDEX_HEADER@ by {
            if j < i {
                assert(out@[2 * j] == before[2 * j]);
            }
        }
        assert forall|j: int| 0 <= j < i + 1 implies (#[trigger] out@[2 * j + 1])@ == docs@[j]@ by {
            if j < i {
                assert(out@[2 * j + 1] == before[2 * j + 1]);
            }
        }
        i = i + 1;
    }
    out
}

} // verus!
