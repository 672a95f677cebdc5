//! Whole runs of the proposal workflow: what holds of every run, and what a
//! run without faults comes to.

use vstd::prelude::*;
use crate::account::SigningAccountView;
use crate::error::RunnerErrorView;
use crate::module::gov::{
    concluded, executable_proposal, failed, select_authority, submit_proposal_outcome,
    submit_proposal_tx, vote_outcome, vote_tx, workflow_begin, workflow_step, yes_vote,
    ProposalWorkflowView, WorkflowActionView, WorkflowEventView, WorkflowFaultView, WorkflowStep,
};
use crate::proto::MsgSubmitProposalResponse;
use crate::result::{DeliveryView, ExecuteResponseView};
use crate::runner::TxRequestView;

verus! {

/// The state that the workflow is in after the driver came back with
/// `events`, one after the other, and the actions that it asked for on the
/// way, in order.
pub open spec fn workflow_run(
    chain_id: Seq<char>,
    state: ProposalWorkflowView,
    events: Seq<WorkflowEventView>,
) -> (ProposalWorkflowView, Seq<WorkflowActionView>)
    decreases events.len(),
{
    if events.len() == 0 {
        (state, Seq::empty())
    } else {
        let (next, action) = workflow_step(chain_id, state, events.first());
        let (last, actions) = workflow_run(chain_id, next, events.drop_first());
        (last, seq![action] + actions)
    }
}

/// How many of the actions hand a transaction to the chain.
pub open spec fn count_executes(actions: Seq<WorkflowActionView>) -> nat
    decreases actions.len(),
{
    if actions.len() == 0 {
        0
    } else {
        count_executes(actions.drop_first()) + if actions.first() is Execute {
            1nat
        } else {
            0nat
        }
    }
}

/// How many of the actions ask for the voting account.
pub open spec fn count_selections(actions: Seq<WorkflowActionView>) -> nat
    decreases actions.len(),
{
    if actions.len() == 0 {
        0
    } else {
        count_selections(actions.drop_first()) + if actions.first() is SelectAuthority {
            1nat
        } else {
            0nat
        }
    }
}

/// How many transactions the workflow can still ask for from `state`: the
/// vote, as long as it has not been asked for.
pub open spec fn executes_ahead(state: ProposalWorkflowView) -> nat {
    match state {
        ProposalWorkflowView::Built => 1,
        ProposalWorkflowView::Submitted { .. } => 1,
        _ => 0,
    }
}

/// How many times the workflow can still ask for the voting account from
/// `state`.
pub open spec fn selections_ahead(state: ProposalWorkflowView) -> nat {
    match state {
        ProposalWorkflowView::Built => 1,
        _ => 0,
    }
}

/// Whatever the driver comes back with, and however often: after the
/// submission the workflow asks for at most one more transaction, and for
/// the voting account at most once. Nothing is tried twice.
pub proof fn lemma_nothing_is_repeated(
    chain_id: Seq<char>,
    state: ProposalWorkflowView,
    events: Seq<WorkflowEventView>,
)
    ensures
        count_executes(workflow_run(chain_id, state, events).1) <= executes_ahead(state),
        count_selections(workflow_run(chain_id, state, events).1) <= selections_ahead(state),
        workflow_run(chain_id, state, events).1.len() == events.len(),
    decreases events.len(),
{
    if events.len() > 0 {
        let (next, action) = workflow_step(chain_id, state, events.first());
        let (last, actions) = workflow_run(chain_id, next, events.drop_first());
        lemma_nothing_is_repeated(chain_id, next, events.drop_first());
        let all = seq![action] + actions;
        assert(all.first() == action);
        assert(all.drop_first() =~= actions);
    }
}

/// Whether `tx` casts, as its one message, a yes vote without metadata in
/// the name of the account that signs it.
pub open spec fn is_yes_vote(chain_id: Seq<char>, tx: TxRequestView) -> bool {
    exists|proposal_id: u64, authority: SigningAccountView|
        tx == #[trigger] vote_tx(chain_id, yes_vote(proposal_id, authority.address), authority)
}

/// Whatever the driver comes back with: every transaction that the
/// workflow asks for after the submission is a yes vote by the account that
/// signs it.
pub proof fn lemma_only_yes_votes_follow(
    chain_id: Seq<char>,
    state: ProposalWorkflowView,
    events: Seq<WorkflowEventView>,
)
    ensures
        forall|i: int|
            0 <= i < events.len() ==> ((#[trigger] workflow_run(
                chain_id,
                state,
                events,
            ).1[i]) matches WorkflowActionView::Execute(tx) ==> is_yes_vote(chain_id, tx)),
    decreases events.len(),
{
    if events.len() > 0 {
        let (next, action) = workflow_step(chain_id, state, events.first());
        let rest = workflow_run(chain_id, next, events.drop_first()).1;
        let all = workflow_run(chain_id, state, events).1;
        lemma_only_yes_votes_follow(chain_id, next, events.drop_first());
        lemma_nothing_is_repeated(chain_id, next, events.drop_first());
        assert(all == seq![action] + rest);
        if action is Execute {
            let tx = action->Execute_0;
            let submission = state->Submitted_submission;
            let authority = events.first()->Authority_0->Ok_0;
            assert(tx == vote_tx(
                chain_id,
                yes_vote(submission.data.proposal_id, authority.address),
                authority,
            ));
        }
        assert forall|i: int| 0 <= i < events.len() && (#[trigger] all[i]) is Execute implies is_yes_vote(
            chain_id,
            all[i]->Execute_0,
        ) by {
            if i > 0 {
                assert(all[i] == rest[i - 1]);
            }
        }
    }
}

/// Once the workflow is over it stays over, with the outcome it has,
/// whatever comes, and asks for nothing.
pub proof fn lemma_done_is_final(
    chain_id: Seq<char>,
    outcome: Result<ExecuteResponseView<MsgSubmitProposalResponse>, WorkflowFaultView>,
    events: Seq<WorkflowEventView>,
)
    ensures
        workflow_run(chain_id, ProposalWorkflowView::Done { outcome }, events).0 == (
        ProposalWorkflowView::Done { outcome }),
        forall|i: int|
            0 <= i < events.len() ==> (#[trigger] workflow_run(
                chain_id,
                ProposalWorkflowView::Done { outcome },
                events,
            ).1[i]) == WorkflowActionView::Finish,
        workflow_run(chain_id, ProposalWorkflowView::Done { outcome }, events).1.len()
            == events.len(),
    decreases events.len(),
{
    if events.len() > 0 {
        let done = ProposalWorkflowView::Done { outcome };
        lemma_done_is_final(chain_id, outcome, events.drop_first());
        let rest = workflow_run(chain_id, done, events.drop_first()).1;
        let all = workflow_run(chain_id, done, events).1;
        assert(all == seq![WorkflowActionView::Finish] + rest);
        assert forall|i: int| 0 <= i < events.len() implies (#[trigger] all[i])
            == WorkflowActionView::Finish by {
            if i > 0 {
                assert(all[i] == rest[i - 1]);
            }
        }
    }
}

/// A fault in the reply to any step ends the workflow there: the outcome is
/// that fault, unchanged, with the step it came from, and nothing more is
/// asked for. What the chain holds by then (a proposal that nobody voted
/// for) stays.
pub proof fn lemma_fault_ends_workflow(
    chain_id: Seq<char>,
    submission: ExecuteResponseView<MsgSubmitProposalResponse>,
    authority: SigningAccountView,
    delivery: DeliveryView,
    fault: RunnerErrorView,
)
    ensures
        submit_proposal_outcome(delivery) == Err::<
            ExecuteResponseView<MsgSubmitProposalResponse>,
            RunnerErrorView,
        >(fault) ==> workflow_step(
            chain_id,
            ProposalWorkflowView::Built,
            WorkflowEventView::Delivered(delivery),
        ) == failed(WorkflowStep::Submit, fault),
        workflow_step(
            chain_id,
            ProposalWorkflowView::Submitted { submission },
            WorkflowEventView::Authority(Err(fault)),
        ) == failed(WorkflowStep::SelectAuthority, fault),
        vote_outcome(delivery) is Err && vote_outcome(delivery)->Err_0 == fault ==> workflow_step(
            chain_id,
            ProposalWorkflowView::AuthoritySelected { submission, authority },
            WorkflowEventView::Delivered(delivery),
        ) == failed(WorkflowStep::Vote, fault),
{
}

/// A run without faults. The proposal that wraps the message is submitted;
/// the chain's id for it is taken from the reply; the account that the
/// chain names casts a yes vote, without metadata, for exactly that id; and
/// the outcome is the submission as the chain gave it. The workflow asks
/// for these three things, once each and in this order, and then for
/// nothing more.
pub proof fn lemma_run_without_faults(
    chain_id: Seq<char>,
    msg_type_url: Seq<char>,
    msg: Seq<u8>,
    proposer: Seq<char>,
    signer: SigningAccountView,
    submitted: DeliveryView,
    authority: SigningAccountView,
    voted: DeliveryView,
)
    requires
        submit_proposal_outcome(submitted) is Ok,
        vote_outcome(voted) is Ok,
    ensures
        ({
            let submission = submit_proposal_outcome(submitted)->Ok_0;
            let begin = workflow_begin(chain_id, msg_type_url, Ok(msg), proposer, signer);
            let run = workflow_run(
                chain_id,
                begin.0,
                seq![
                    WorkflowEventView::Delivered(submitted),
                    WorkflowEventView::Authority(Ok(authority)),
                    WorkflowEventView::Delivered(voted),
                ],
            );
            &&& begin.0 == ProposalWorkflowView::Built
            &&& begin.1 == WorkflowActionView::Execute(
                submit_proposal_tx(
                    chain_id,
                    executable_proposal(msg_type_url, msg, proposer),
                    signer,
                ),
            )
            &&& run.0 == (ProposalWorkflowView::Done { outcome: Ok(submission) })
            &&& run.1 == seq![
                select_authority(),
                WorkflowActionView::Execute(
                    vote_tx(
                        chain_id,
                        yes_vote(submission.data.proposal_id, authority.address),
                        authority,
                    ),
                ),
                WorkflowActionView::Finish,
            ]
        }),
{
    let submission = submit_proposal_outcome(submitted)->Ok_0;
    let e0 = WorkflowEventView::Delivered(submitted);
    let e1 = WorkflowEventView::Authority(Ok(authority));
    let e2 = WorkflowEventView::Delivered(voted);
    let events = seq![e0, e1, e2];
    let s0 = ProposalWorkflowView::Built;
    let s1 = ProposalWorkflowView::Submitted { submission };
    let s2 = ProposalWorkflowView::AuthoritySelected { submission, authority };
    let s3 = ProposalWorkflowView::Done { outcome: Ok(submission) };
    let a2 = WorkflowActionView::Execute(
        vote_tx(chain_id, yes_vote(submission.data.proposal_id, authority.address), authority),
    );
    assert(workflow_step(chain_id, s0, e0) == (s1, select_authority()));
    assert(workflow_step(chain_id, s1, e1) == (s2, a2));
    assert(workflow_step(chain_id, s2, e2) == concluded(submission));
    let t1 = events.drop_first();
    let t2 = t1.drop_first();
    let t3 = t2.drop_first();
    assert(t1 =~= seq![e1, e2]);
    assert(t2 =~= seq![e2]);
    assert(t3 =~= Seq::<WorkflowEventView>::empty());
    assert(workflow_run(chain_id, s3, t3) == (s3, Seq::<WorkflowActionView>::empty()));
    assert(workflow_run(chain_id, s2, t2).1 =~= seq![WorkflowActionView::Finish]);
    assert(workflow_run(chain_id, s2, t2).0 == s3);
    assert(workflow_run(chain_id, s1, t1).1 =~= seq![a2, WorkflowActionView::Finish]);
    assert(workflow_run(chain_id, s1, t1).0 == s3);
    assert(workflow_run(chain_id, s0, events).1 =~= seq![
        select_authority(),
        a2,
        WorkflowActionView::Finish,
    ]);
    assert(workflow_run(chain_id, s0, events).0 == s3);
}

} // verus!
