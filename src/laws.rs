use vstd::prelude::*;
use crate::amount::Amount;
use crate::payload::FlowError;
use crate::workflow::{Action, Event, Flow, Workflow};

verus! {

/// A collection is submitted only once every source wallet's allowance has been
/// read and found at least its resolved debit.
pub proof fn lemma_collection_needs_every_allowance(w: Workflow)
    requires
        w.wf(),
        w.flow == Flow::Collect,
        w.action_of() is CollectToken,
    ensures
        w.allowances@.len() == w.wallets@.len(),
        w.debits@.len() == w.wallets@.len(),
        forall|i: int|
            0 <= i < w.wallets@.len() ==> (#[trigger] w.allowances@[i]).value()
                >= w.debits@[i].value(),
{
}

/// A source wallet whose allowance is below its resolved debit ends the whole
/// collection with `InsufficientAllowance` naming that wallet, before any
/// transaction is submitted.
pub proof fn lemma_short_allowance_refuses_collection(w: Workflow, v: Amount, w2: Workflow)
    requires
        w.wf(),
        w.flow == Flow::Collect,
        w.phase is CheckingAllowances,
        v.value() < w.debits@[w.allowances@.len() as int].value(),
        w2.follows(&w, Event::Value(v)),
    ensures
        w2.action_of() == Action::Done(
            Err(
                FlowError::InsufficientAllowance {
                    wallet: w.wallets@[w.allowances@.len() as int],
                    needed: w.debits@[w.allowances@.len() as int],
                    has: v,
                },
            ),
        ),
{
}

/// A request that failed stays failed: whatever comes back, it asks for no
/// further call.
pub proof fn lemma_failed_is_final(w: Workflow, e: Event, w2: Workflow)
    requires
        w.phase is Failed,
        w2.follows(&w, e),
    ensures
        w2 == w,
        w2.action_of() is Done,
{
}

/// In a token distribution an approval is asked for exactly when the
/// operator's allowance to the manager is below the total; otherwise the
/// distribution follows at once and no approval id is ever recorded.
pub proof fn lemma_approval_iff_allowance_short(w: Workflow, v: Amount, w2: Workflow)
    requires
        w.wf(),
        w.flow == Flow::Erc20,
        w.phase is CheckingAllowances,
        w2.follows(&w, Event::Value(v)),
    ensures
        w2.action_of() is Approve <==> v.value() < w.amount.value(),
        !(v.value() < w.amount.value()) ==> w2.action_of() is DistributeToken && w2.approve_tx
            is None,
{
}

/// A completed request reports an approval id exactly when an approval was submitted.
pub proof fn lemma_completed_reports_approval(w: Workflow)
    requires
        w.wf(),
        w.phase is Completed,
    ensures
        w.action_of() matches Action::Done(Ok(resp)) && resp.tx_hash_approve == w.approve_tx
            && resp.tx_hash_distribute is Some && resp.error is None,
{
}

/// A native distribution never reads an allowance or a balance and never approves.
pub proof fn lemma_native_needs_no_allowance(w: Workflow)
    requires
        w.wf(),
        w.flow == Flow::Native,
    ensures
        !(w.action_of() is ReadAllowance),
        !(w.action_of() is ReadOwnAllowance),
        !(w.action_of() is Approve),
        !(w.action_of() is ReadBalance),
        w.approve_tx is None,
{
}

/// `ws` are the states a request passes through while the events `es` come back.
pub open spec fn is_run(ws: Seq<Workflow>, es: Seq<Event>) -> bool {
    &&& ws.len() == es.len() + 1
    &&& forall|j: int| 0 <= j < es.len() ==> ws[j + 1].follows(&ws[j], #[trigger] es[j])
}

proof fn lemma_run_stays_failed(ws: Seq<Workflow>, es: Seq<Event>, a: int, j: int)
    requires
        is_run(ws, es),
        0 <= a <= j < ws.len(),
        ws[a].phase is Failed,
    ensures
        ws[j] == ws[a],
    decreases j - a,
{
    if j > a {
        lemma_run_stays_failed(ws, es, a, j - 1);
        assert(ws[j].follows(&ws[j - 1], es[j - 1]));
    }
}

/// Over any run of a collection, once one source wallet's allowance is read
/// below its resolved debit, every later state only ends the request with
/// `InsufficientAllowance` naming that wallet: no transfer is submitted for
/// any wallet of the request.
pub proof fn lemma_collection_refusal_is_atomic(ws: Seq<Workflow>, es: Seq<Event>, i: int, v: Amount)
    requires
        is_run(ws, es),
        0 <= i < es.len(),
        ws[i].wf(),
        ws[i].flow == Flow::Collect,
        ws[i].phase is CheckingAllowances,
        es[i] == Event::Value(v),
        v.value() < ws[i].debits@[ws[i].allowances@.len() as int].value(),
    ensures
        forall|j: int|
            i < j < ws.len() ==> (#[trigger] ws[j]).action_of() == Action::Done(
                Err(
                    FlowError::InsufficientAllowance {
                        wallet: ws[i].wallets@[ws[i].allowances@.len() as int],
                        needed: ws[i].debits@[ws[i].allowances@.len() as int],
                        has: v,
                    },
                ),
            ),
{
    assert(ws[i + 1].follows(&ws[i], es[i]));
    lemma_short_allowance_refuses_collection(ws[i], v, ws[i + 1]);
    assert forall|j: int| i < j < ws.len() implies (#[trigger] ws[j]).action_of() == ws[i
        + 1].action_of() by {
        lemma_run_stays_failed(ws, es, i + 1, j);
    }
}

} // verus!
