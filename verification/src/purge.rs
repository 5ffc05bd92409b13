//! Paginated purge engine: plans the bounded fetches and the single bulk
//! deletion that remove up to a requested number of recent messages from a
//! channel, and reports exactly how many were removed.
//!
//! The remote service caps a single fetch at [`FETCH_CAP`] messages, so a
//! request beyond the cap is served by two chained fetches: the second uses
//! a "before" cursor set to the oldest message returned by the first. The
//! two pages are concatenated in fetch order and deleted in one call.

use vstd::prelude::*;

use crate::remote::RemoteError;

verus! {

/// Hard platform limit on how many messages one fetch call may return.
pub const FETCH_CAP: u32 = 100;

/// One planned fetch call: up to `limit` most-recent messages of `channel`,
/// restricted to messages older than `before` when a cursor is given.
#[derive(Clone, Copy, Debug, PartialEq, Eq)]
pub struct FetchRequest {
    pub channel: u64,
    pub limit: u32,
    pub before: Option<u64>,
}

/// Outcome of one purge: how many messages were actually deleted, and any
/// error the bulk deletion reported. The deletion is atomic at the remote
/// side, so the error list is empty on success and holds the one failure
/// otherwise.
#[derive(Clone, Debug, PartialEq, Eq)]
pub struct PurgeResult {
    pub deleted: usize,
    pub errors: Vec<RemoteError>,
}

/// A remote call issued by the purge engine, recorded for inspection.
#[derive(Clone, Debug, PartialEq, Eq)]
pub enum RemoteCall {
    Fetch { channel: u64, limit: u32, before: Option<u64> },
    BulkDelete { channel: u64, ids: Vec<u64> },
}

pub open spec fn min_int(a: int, b: int) -> int {
    if a <= b {
        a
    } else {
        b
    }
}

/// Message ids as the remote hands them out: newest first, so later entries
/// are strictly smaller ids.
pub open spec fn newest_first(ids: Seq<u64>) -> bool {
    forall|i: int, j: int| 0 <= i < j < ids.len() ==> ids[i] > ids[j]
}

pub open spec fn all_distinct(ids: Seq<u64>) -> bool {
    forall|i: int, j: int| 0 <= i < j < ids.len() ==> ids[i] != ids[j]
}

/// The first fetch asks for the whole request when it fits in one page, and
/// for exactly one full page otherwise.
pub fn first_fetch_request(channel: u64, requested: u32) -> (r: FetchRequest)
    requires
        1 <= requested,
    ensures
        r.channel == channel,
        r.before is None,
        r.limit == if requested <= FETCH_CAP {
            requested
        } else {
            FETCH_CAP
        },
{
    let limit = if requested <= FETCH_CAP {
        requested
    } else {
        FETCH_CAP
    };
    FetchRequest { channel, limit, before: None }
}

/// A second fetch is issued exactly when the request exceeds one page and
/// the first page was not empty; it asks for the remainder, strictly before
/// the oldest (last) message id of the first page.
pub fn second_fetch_request(channel: u64, requested: u32, first_page: &Vec<u64>) -> (r: Option<
    FetchRequest,
>)
    ensures
        r is Some <==> requested > FETCH_CAP && first_page@.len() > 0,
        r is Some ==> r == Some(
            FetchRequest {
                channel,
                limit: (requested - FETCH_CAP) as u32,
                before: Some(first_page@.last()),
            },
        ),
{
    if requested > FETCH_CAP && first_page.len() > 0 {
        Some(
            FetchRequest {
                channel,
                limit: requested - FETCH_CAP,
                before: Some(first_page[first_page.len() - 1]),
            },
        )
    } else {
        None
    }
}

/// The deletion set is the two pages concatenated in fetch order.
pub fn concat_pages(first_page: Vec<u64>, second_page: Vec<u64>) -> (r: Vec<u64>)
    ensures
        r@ == first_page@ + second_page@,
{
    let mut ids = first_page;
    let mut rest = second_page;
    ids.append(&mut rest);
    ids
}

/// Builds the reported result once the bulk deletion has come back: on
/// success everything fetched was deleted; on failure nothing was, and the
/// error is reported verbatim.
pub fn purge_outcome(fetched: usize, delete_result: Result<(), RemoteError>) -> (r: PurgeResult)
    ensures
        delete_result is Ok ==> r.deleted == fetched && r.errors@ == Seq::<RemoteError>::empty(),
        delete_result matches Err(e) ==> r.deleted == 0 && r.errors@ == seq![e],
{
    match delete_result {
        Ok(_) => PurgeResult { deleted: fetched, errors: Vec::new() },
        Err(e) => {
            let mut errors: Vec<RemoteError> = Vec::new();
            errors.push(e);
            PurgeResult { deleted: 0, errors }
        },
    }
}

/// Copies `store[start .. start + count]` out of the store, preserving order.
fn take_range(store: &Vec<u64>, start: usize, count: usize) -> (r: Vec<u64>)
    requires
        start + count <= store@.len(),
    ensures
        r@ == store@.subrange(start as int, start as int + count as int),
{
    let n = store.len();
    let mut r: Vec<u64> = Vec::new();
    let mut i: usize = 0;
    while i < count
        invariant
            n == store@.len(),
            start + count <= n,
            i <= count,
            r@ == store@.subrange(start as int, start as int + i as int),
        decreases count - i,
    {
        r.push(store[start + i]);
        proof {
            assert(store@.subrange(start as int, start as int + i as int + 1) =~= store@.subrange(
                start as int,
                start as int + i as int,
            ).push(store@[start as int + i as int]));
        }
        i += 1;
    }
    r
}

/// The remote service's scripted answers for one purge run: whether each
/// fetch succeeds (successful fetches are served from the store) and how the
/// bulk deletion answers. An answer the run never reaches is never looked
/// at.
#[derive(Debug, PartialEq, Eq)]
pub struct PurgeScript {
    pub first_fetch: Result<(), RemoteError>,
    pub second_fetch: Result<(), RemoteError>,
    pub delete: Result<(), RemoteError>,
}

/// The result a purge aborted by a remote failure reports: nothing deleted,
/// the failure verbatim.
fn aborted_purge(e: RemoteError) -> (r: PurgeResult)
    ensures
        r.deleted == 0,
        r.errors@ == seq![e],
{
    let mut errors: Vec<RemoteError> = Vec::new();
    errors.push(e);
    PurgeResult { deleted: 0, errors }
}

/// Runs one whole purge against an in-memory picture of the channel's
/// messages (`store`, newest first) and scripted remote answers, and records
/// every remote call the engine issues.
///
/// The contract pins the whole run down:
/// - a request within one page issues exactly one fetch and one delete;
/// - a larger request issues exactly two fetches (the second with a cursor
///   set before the oldest id of the first page) and one delete;
/// - a failed fetch aborts the purge with that error, and then no delete
///   call is issued at all;
/// - otherwise the one deletion covers exactly the `min(requested,
///   available)` most recent messages, and the reported count equals that
///   number when it succeeds, zero when it fails.
pub fn run_purge(
    channel: u64,
    requested: u32,
    store: &Vec<u64>,
    script: PurgeScript,
) -> (r: (PurgeResult, Vec<RemoteCall>))
    requires
        1 <= requested,
    ensures
        ({
            let n = store@.len() as int;
            let total = min_int(requested as int, n);
            let first_len = min_int(
                if requested <= FETCH_CAP {
                    requested as int
                } else {
                    FETCH_CAP as int
                },
                n,
            );
            let second_issued = requested > FETCH_CAP && n > 0;
            let fetches_ok = script.first_fetch is Ok && (second_issued
                ==> script.second_fetch is Ok);
            let calls = r.1@;
            &&& calls.len() == if script.first_fetch is Err {
                1int
            } else if second_issued && script.second_fetch is Err {
                2int
            } else if second_issued {
                3int
            } else {
                2int
            }
            &&& calls[0] == (RemoteCall::Fetch {
                channel,
                limit: if requested <= FETCH_CAP {
                    requested
                } else {
                    FETCH_CAP
                },
                before: None,
            })
            &&& (script.first_fetch is Ok && second_issued) ==> calls[1] == (RemoteCall::Fetch {
                channel,
                limit: (requested - FETCH_CAP) as u32,
                before: Some(store@[first_len - 1]),
            })
            &&& script.first_fetch matches Err(e) ==> r.0.deleted == 0 && r.0.errors@ == seq![e]
            &&& (script.first_fetch is Ok && second_issued) ==> (script.second_fetch matches Err(
                e,
            ) ==> r.0.deleted == 0 && r.0.errors@ == seq![e])
            &&& !fetches_ok ==> forall|i: int|
                0 <= i < calls.len() ==> !(#[trigger] calls[i] is BulkDelete)
            &&& fetches_ok ==> (calls.last() matches RemoteCall::BulkDelete { channel: dc, ids }
                && dc == channel && ids@ == store@.take(total))
            &&& newest_first(store@) ==> all_distinct(store@.take(total))
            &&& r.0.deleted <= requested
            &&& (fetches_ok && script.delete is Ok) ==> r.0.deleted == total && r.0.errors@
                == Seq::<RemoteError>::empty()
            &&& fetches_ok ==> (script.delete matches Err(e) ==> r.0.deleted == 0 && r.0.errors@
                == seq![e])
        }),
{
    proof {
        if newest_first(store@) {
            lemma_purge_ids_distinct(store@, min_int(requested as int, store@.len() as int));
        }
    }
    let n = store.len();
    let mut calls: Vec<RemoteCall> = Vec::new();

    let req1 = first_fetch_request(channel, requested);
    calls.push(RemoteCall::Fetch { channel: req1.channel, limit: req1.limit, before: req1.before });
    if let Err(e) = script.first_fetch {
        return (aborted_purge(e), calls);
    }
    let first_count: usize = if (req1.limit as usize) <= n {
        req1.limit as usize
    } else {
        n
    };
    let first_page = take_range(store, 0, first_count);

    let mut ids = first_page;
    if let Some(req2) = second_fetch_request(channel, requested, &ids) {
        calls.push(
            RemoteCall::Fetch { channel: req2.channel, limit: req2.limit, before: req2.before },
        );
        if let Err(e) = script.second_fetch {
            return (aborted_purge(e), calls);
        }
        let remaining = n - first_count;
        let second_count: usize = if (req2.limit as usize) <= remaining {
            req2.limit as usize
        } else {
            remaining
        };
        let second_page = take_range(store, first_count, second_count);
        ids = concat_pages(ids, second_page);
        proof {
            assert(ids@ =~= store@.take(first_count as int + second_count as int));
        }
    }
    proof {
        assert(ids@ =~= store@.take(min_int(requested as int, store@.len() as int)));
    }

    let fetched = ids.len();
    calls.push(RemoteCall::BulkDelete { channel, ids });
    let result = purge_outcome(fetched, script.delete);
    (result, calls)
}

/// A purge never deletes one message twice: the deletion set handed to the
/// single bulk-delete call is duplicate-free, because it is a prefix of the
/// channel's messages in newest-first order.
pub proof fn lemma_purge_ids_distinct(store: Seq<u64>, count: int)
    requires
        newest_first(store),
        0 <= count <= store.len(),
    ensures
        all_distinct(store.take(count)),
{
    assert forall|i: int, j: int| 0 <= i < j < store.take(count).len() implies store.take(count)[i]
        != store.take(count)[j] by {
        assert(store.take(count)[i] == store[i]);
        assert(store.take(count)[j] == store[j]);
    }
}

} // verus!
