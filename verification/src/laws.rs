//! What holds of every step, of every whole search and of every transfer.

use vstd::prelude::*;
use crate::error::NEXMemoryError;
use crate::host::{
    cursor_after, lemma_budget_shrinks, lemma_first_candidate, run, search_by_enumeration,
    search_by_snapshot, verdict_on, Exchange, Host,
};
use crate::platform::{ReplyView, Request};
use crate::process::{path_outcome, transfer_outcome, ProcessView};
use crate::scan::{first_candidate, seek, Phase, StepView};

verus! {

/// Where the predicate is not asked, what it would say changes nothing.
pub proof fn law_verdict_counts_only_where_asked(phase: Phase, reply: ReplyView)
    requires
        phase.consults(reply) is None,
    ensures
        phase.next(reply, true) == phase.next(reply, false),
{
}

/// The handle that a scan in `phase` has opened and still holds.
pub open spec fn held_in(phase: Phase) -> Option<u32> {
    match phase {
        Phase::Path { handle, .. } => Some(handle),
        Phase::Close { handle, .. } => Some(handle),
        _ => None,
    }
}

/// The handle that the caller of a search is left with.
pub open spec fn held_after(result: Result<ProcessView, NEXMemoryError>) -> Option<u32> {
    match result {
        Ok(process) => Some(process.handle),
        Err(_) => None,
    }
}

/// The handle that is held once a step is taken.
pub open spec fn held_then(step: StepView) -> Option<u32> {
    match step {
        StepView::Continue(phase) => held_in(phase),
        StepView::Finish(result) => held_after(result),
    }
}

/// The account of handles over one call, for someone who holds `held` before
/// it: the handle held after it.
///
/// The account is in order as long as no process is opened while a handle is
/// held, and no handle is given back but the one that is held. Where it is
/// not, there is no answer.
pub open spec fn settle(held: Option<u32>, call: Exchange) -> Option<Option<u32>> {
    match (call.request, call.reply) {
        (Request::OpenProcess { .. }, ReplyView::Handle(handle)) => if handle == 0 {
            Some(held)
        } else if held is None {
            Some(Some(handle))
        } else {
            None
        },
        (Request::CloseHandle { handle }, _) => if held == Some(handle) {
            Some(None)
        } else {
            None
        },
        _ => Some(held),
    }
}

/// The account of handles over `calls`, one after another: the handle held
/// after all of them, where the account is in order at every call.
pub open spec fn ledger(held: Option<u32>, calls: Seq<Exchange>) -> Option<Option<u32>>
    decreases calls.len(),
{
    if calls.len() == 0 {
        Some(held)
    } else {
        match settle(held, calls.first()) {
            Some(then) => ledger(then, calls.skip(1)),
            None => None,
        }
    }
}

/// Whatever the platform answers, one step keeps the account of handles in
/// order: a handle that was opened is held after it, one that was given back
/// is not, and a search that ends holds its process's handle or none.
pub proof fn law_step_keeps_account(phase: Phase, reply: ReplyView, verdict: bool)
    ensures
        settle(held_in(phase), Exchange { request: phase.request(), reply }) == Some(
            held_then(phase.next(reply, verdict)),
        ),
{
}

/// After a whole search, from any phase and on any platform, the account of
/// handles is in order and what is held is the handle of the process that was
/// found, or nothing where none was found.
pub proof fn law_run_keeps_account(
    host: Host,
    pred: spec_fn(Seq<char>) -> bool,
    phase: Phase,
    cursor: nat,
)
    ensures
        ledger(held_in(phase), run(host, pred, phase, cursor).calls) == Some(
            held_after(run(host, pred, phase, cursor).result),
        ),
    decreases crate::host::budget(host, phase, cursor),
{
    let request = phase.request();
    let reply = host.answer(request, cursor);
    let exchange = Exchange { request, reply };
    let verdict = verdict_on(pred, phase, reply);
    law_step_keeps_account(phase, reply, verdict);
    let calls = run(host, pred, phase, cursor).calls;
    match phase.next(reply, verdict) {
        StepView::Finish(result) => {
            assert(calls.first() == exchange);
            assert(calls.skip(1).len() == 0);
            assert(ledger(held_after(result), calls.skip(1)) == Some(held_after(result)));
        },
        StepView::Continue(then) => {
            lemma_budget_shrinks(host, pred, phase, cursor);
            let rest = run(host, pred, then, cursor_after(request, cursor));
            law_run_keeps_account(host, pred, then, cursor_after(request, cursor));
            assert(calls == seq![exchange] + rest.calls);
            assert(calls.first() == exchange);
            assert(calls.skip(1) =~= rest.calls);
            assert(ledger(held_in(phase), calls) == ledger(held_in(then), calls.skip(1)));
        },
    }
}

/// A search by snapshot leaves its caller with the handle of the process that
/// it found and with no other: every search opens at most one process at a
/// time, gives back each that it does not keep, and gives none back twice.
pub proof fn law_snapshot_search_balances(host: Host, pred: spec_fn(Seq<char>) -> bool)
    ensures
        ledger(None, search_by_snapshot(host, pred).calls) == Some(
            held_after(search_by_snapshot(host, pred).result),
        ),
{
    law_run_keeps_account(host, pred, Phase::Snapshot, 0);
}

/// A search by enumeration leaves its caller with the handle of the process
/// that it found and with no other.
pub proof fn law_enumeration_search_balances(host: Host, pred: spec_fn(Seq<char>) -> bool)
    ensures
        ledger(None, search_by_enumeration(host, pred).calls) == Some(
            held_after(search_by_enumeration(host, pred).result),
        ),
{
    law_run_keeps_account(host, pred, Phase::ProcessIds, 0);
}

/// What a walk of the snapshot gives from the entry `cursor` on, where the
/// entries before `k` are passed over and `k` is the first that ends the
/// search, or the number of entries if none does.
proof fn lemma_snapshot_walk(
    host: Host,
    pred: spec_fn(Seq<char>) -> bool,
    snapshot: u32,
    cursor: nat,
    k: nat,
)
    requires
        cursor <= k <= host.entries.len(),
        forall|i: int| cursor <= i < k ==> host.entry_verdict(pred, i) is None,
        k < host.entries.len() ==> host.entry_verdict(pred, k as int) is Some,
    ensures
        run(host, pred, Phase::Entry { snapshot }, cursor).result == (if k < host.entries.len() {
            host.entry_verdict(pred, k as int)->0
        } else {
            Err(NEXMemoryError::ProcessNotFound)
        }),
    decreases k - cursor,
{
    let phase = Phase::Entry { snapshot };
    let reply = host.answer(phase.request(), cursor);
    let verdict = verdict_on(pred, phase, reply);
    if cursor < k {
        assert(host.entry_verdict(pred, cursor as int) is None);
        assert(phase.next(reply, verdict) == StepView::Continue(phase));
        lemma_snapshot_walk(host, pred, snapshot, cursor + 1, k);
    } else if k < host.entries.len() {
        let entry = host.entries[k as int];
        if phase.next(reply, verdict) == StepView::Continue(Phase::OpenMatch { pid: entry.pid }) {
            let opening = Phase::OpenMatch { pid: entry.pid };
            assert(run(host, pred, phase, cursor).result == run(
                host,
                pred,
                opening,
                cursor + 1,
            ).result);
        }
    }
}

/// What a search by enumeration gives from the process `from` of the list on,
/// where the processes before `k` are passed over and `k` is the first that
/// ends the search, or the length of the list if none does.
proof fn lemma_enumeration_walk(
    host: Host,
    pred: spec_fn(Seq<char>) -> bool,
    pids: Seq<u32>,
    from: int,
    k: int,
    cursor: nat,
)
    requires
        0 <= from <= k <= pids.len(),
        forall|i: int| from <= i < k ==> host.candidate_verdict(pred, pids[i]) is None,
        k < pids.len() ==> host.candidate_verdict(pred, pids[k]) is Some,
    ensures
        outcome_of(host, pred, seek(pids, from), cursor) == (if k < pids.len() {
            host.candidate_verdict(pred, pids[k])->0
        } else {
            Err(NEXMemoryError::ProcessNotFound)
        }),
    decreases k - from,
{
    lemma_first_candidate(pids, from);
    let index = first_candidate(pids, from);
    if index < pids.len() {
        if k < pids.len() {
            assert(pids[k] != 0);
        }
        assert(index <= k);
        let open = Phase::Open { pids, index };
        let handle = (host.handles)(pids[index]);
        let path = Phase::Path { pids, index, handle };
        let close = Phase::Close { pids, index, handle, failure: None };
        if index < k {
            assert(host.candidate_verdict(pred, pids[index]) is None);
            lemma_enumeration_walk(host, pred, pids, index + 1, k, cursor);
            if handle != 0 {
                assert(run(host, pred, open, cursor).result == run(host, pred, path, cursor).result);
                assert(run(host, pred, path, cursor).result == run(
                    host,
                    pred,
                    close,
                    cursor,
                ).result);
                assert(run(host, pred, close, cursor).result == outcome_of(
                    host,
                    pred,
                    seek(pids, index + 1),
                    cursor,
                ));
            }
        } else {
            assert(handle != 0);
            assert(run(host, pred, open, cursor).result == run(host, pred, path, cursor).result);
            let bytes = (host.paths)(handle)->0;
            if crate::text::decoded(bytes) is Err {
                let failing = Phase::Close {
                    pids,
                    index,
                    handle,
                    failure: Some(crate::text::decoded(bytes)->Err_0),
                };
                assert(run(host, pred, path, cursor).result == run(
                    host,
                    pred,
                    failing,
                    cursor,
                ).result);
            }
        }
    } else {
        assert(k == pids.len()) by {
            if k < pids.len() {
                assert(pids[k] != 0);
            }
        }
    }
}

/// What a search gives that has taken `step`.
pub open spec fn outcome_of(
    host: Host,
    pred: spec_fn(Seq<char>) -> bool,
    step: StepView,
    cursor: nat,
) -> Result<ProcessView, NEXMemoryError> {
    match step {
        StepView::Finish(result) => result,
        StepView::Continue(phase) => run(host, pred, phase, cursor).result,
    }
}

/// A search by snapshot is decided by the first entry that does not let it
/// pass: it ends as that entry has it, whatever comes after.
pub proof fn law_snapshot_first_verdict_decides(
    host: Host,
    pred: spec_fn(Seq<char>) -> bool,
    k: int,
)
    requires
        host.snapshot != 0,
        0 <= k < host.entries.len(),
        forall|i: int| 0 <= i < k ==> host.entry_verdict(pred, i) is None,
        host.entry_verdict(pred, k) is Some,
    ensures
        search_by_snapshot(host, pred).result == host.entry_verdict(pred, k)->0,
{
    lemma_snapshot_walk(host, pred, host.snapshot, 0, k as nat);
}

/// A search by enumeration is decided by the first process of the list that
/// does not let it pass.
pub proof fn law_enumeration_first_verdict_decides(
    host: Host,
    pred: spec_fn(Seq<char>) -> bool,
    k: int,
)
    requires
        host.process_ids is Some,
        0 <= k < host.process_ids->0.len(),
        forall|i: int| 0 <= i < k ==> host.candidate_verdict(pred, host.process_ids->0[i]) is None,
        host.candidate_verdict(pred, host.process_ids->0[k]) is Some,
    ensures
        search_by_enumeration(host, pred).result == host.candidate_verdict(
            pred,
            host.process_ids->0[k],
        )->0,
{
    lemma_enumeration_walk(host, pred, host.process_ids->0, 0, k, 0);
}

/// On a snapshot without entries, or with entries that all have names that
/// the predicate turns down, a search finds no process, opens none and holds
/// no handle at its end.
pub proof fn law_snapshot_without_match(host: Host, pred: spec_fn(Seq<char>) -> bool)
    requires
        host.snapshot != 0,
        forall|i: int| 0 <= i < host.entries.len() ==> host.entry_verdict(pred, i) is None,
    ensures
        search_by_snapshot(host, pred).result == Err::<ProcessView, NEXMemoryError>(
            NEXMemoryError::ProcessNotFound,
        ),
        ledger(None, search_by_snapshot(host, pred).calls) == Some(None::<u32>),
{
    lemma_snapshot_walk(host, pred, host.snapshot, 0, host.entries.len());
    law_snapshot_search_balances(host, pred);
}

/// On an empty list of processes, or a list of which the search passes over
/// every process, a search finds no process and holds no handle at its end.
pub proof fn law_enumeration_without_match(host: Host, pred: spec_fn(Seq<char>) -> bool)
    requires
        host.process_ids is Some,
        forall|i: int|
            0 <= i < host.process_ids->0.len() ==> host.candidate_verdict(
                pred,
                host.process_ids->0[i],
            ) is None,
    ensures
        search_by_enumeration(host, pred).result == Err::<ProcessView, NEXMemoryError>(
            NEXMemoryError::ProcessNotFound,
        ),
        ledger(None, search_by_enumeration(host, pred).calls) == Some(None::<u32>),
{
    lemma_enumeration_walk(
        host,
        pred,
        host.process_ids->0,
        0,
        host.process_ids->0.len() as int,
        0,
    );
    law_enumeration_search_balances(host, pred);
}

/// Where one entry of the snapshot has a name that the predicate takes, all
/// others are passed over and the process can be opened, the search gives
/// that process, with the identifier of the entry, wherever the entry stands.
pub proof fn law_snapshot_finds_single_match(
    host: Host,
    pred: spec_fn(Seq<char>) -> bool,
    k: int,
)
    requires
        host.snapshot != 0,
        0 <= k < host.entries.len(),
        forall|i: int|
            0 <= i < host.entries.len() && i != k ==> host.entry_verdict(pred, i) is None,
        crate::text::decoded(host.entries[k].exe_file) matches Ok(name) && pred(name),
        (host.handles)(host.entries[k].pid) != 0,
    ensures
        search_by_snapshot(host, pred).result == Ok::<ProcessView, NEXMemoryError>(
            ProcessView { handle: (host.handles)(host.entries[k].pid), pid: host.entries[k].pid },
        ),
{
    law_snapshot_first_verdict_decides(host, pred, k);
}

/// Where one process of the list can be opened and has a path that the
/// predicate takes, and the search passes over all others, it gives that
/// process, with its identifier, wherever it stands in the list.
pub proof fn law_enumeration_finds_single_match(
    host: Host,
    pred: spec_fn(Seq<char>) -> bool,
    k: int,
)
    requires
        host.process_ids is Some,
        0 <= k < host.process_ids->0.len(),
        forall|i: int|
            0 <= i < host.process_ids->0.len() && i != k ==> host.candidate_verdict(
                pred,
                host.process_ids->0[i],
            ) is None,
        host.process_ids->0[k] != 0,
        (host.handles)(host.process_ids->0[k]) != 0,
        (host.paths)((host.handles)(host.process_ids->0[k])) matches Some(bytes)
            && crate::text::decoded(bytes) matches Ok(path) && pred(path),
    ensures
        search_by_enumeration(host, pred).result == Ok::<ProcessView, NEXMemoryError>(
            ProcessView {
                handle: (host.handles)(host.process_ids->0[k]),
                pid: host.process_ids->0[k],
            },
        ),
{
    law_enumeration_first_verdict_decides(host, pred, k);
}

/// Each stage that can fail has a failure of its own: a list that cannot be
/// had, a snapshot that is refused, a picked process that cannot be opened and
/// a path that is not given end in four different kinds of failure.
pub proof fn law_failures_are_told_apart(host: Host, pred: spec_fn(Seq<char>) -> bool, pid: u32)
    ensures
        host.process_ids is None ==> search_by_enumeration(host, pred).result == Err::<
            ProcessView,
            NEXMemoryError,
        >(NEXMemoryError::EnumProcessError),
        host.snapshot == 0 ==> search_by_snapshot(host, pred).result == Err::<
            ProcessView,
            NEXMemoryError,
        >(NEXMemoryError::UnableToTakeSnapshot),
        forall|verdict: bool|
            (Phase::OpenMatch { pid }).next(ReplyView::Handle(0), verdict) == StepView::Finish(
                Err(NEXMemoryError::OpenProcessError),
            ),
        path_outcome(ReplyView::Path(None)) == Err::<Seq<char>, NEXMemoryError>(
            NEXMemoryError::ProcessNotFound,
        ),
        NEXMemoryError::EnumProcessError != NEXMemoryError::UnableToTakeSnapshot,
        NEXMemoryError::EnumProcessError != NEXMemoryError::OpenProcessError,
        NEXMemoryError::EnumProcessError != NEXMemoryError::ProcessNotFound,
        NEXMemoryError::UnableToTakeSnapshot != NEXMemoryError::OpenProcessError,
        NEXMemoryError::UnableToTakeSnapshot != NEXMemoryError::ProcessNotFound,
        NEXMemoryError::OpenProcessError != NEXMemoryError::ProcessNotFound,
{
}

/// A transfer that moved another number of bytes than was asked for is a
/// failure, whatever the platform says of its success.
pub proof fn law_partial_transfer_fails(
    size: u32,
    accepted: bool,
    transferred: u32,
    failure: NEXMemoryError,
)
    requires
        transferred != size,
    ensures
        transfer_outcome(size, ReplyView::Transfer { accepted, transferred }, failure) == Err::<
            u32,
            NEXMemoryError,
        >(failure),
{
}

} // verus!
