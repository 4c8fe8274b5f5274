//! What is shown of replies, commands, outcomes and steps is what they hold.

use vstd::prelude::*;
use crate::remote::{ForwardStep, ForwardStepView, RefreshStep, RefreshStepView};
use crate::reply;
use crate::reply::{
    CommandLine, CommandLineView, Outcome, OutcomeView, Reply, Status, StreamHead, StreamPlan,
};
use crate::path_info::PathInfo;
use crate::store;
use crate::store::{Serving, ServingView, Step, StepView, Wanted, WantedView};

verus! {

/// The numbers of the statuses.
pub proof fn law_status_numbers()
    ensures
        Status::Success.number() == 200,
        Status::NotFound.number() == 404,
        Status::InternalServerError.number() == 500,
{
}

/// What is shown of a reply is what it holds.
pub proof fn law_reply_is_shown_whole(reply: Reply)
    ensures
        reply@.status == reply.status,
        reply@.content_type == reply.content_type@,
        reply@.content_length == reply.content_length,
        reply@.body == reply.body@,
{
}

/// A reply with a body is a success, keeps the body, and gives its length in bytes.
pub proof fn law_reply_keeps_its_body(content_type: Seq<char>, body: Seq<char>)
    ensures
        reply::reply_with(content_type, body).status == Status::Success,
        reply::reply_with(content_type, body).content_type == content_type,
        reply::reply_with(content_type, body).body == body,
        reply::reply_with(content_type, body).content_length == vstd::utf8::encode_utf8(body).len(),
{
}

/// What is shown of the head of a stream is what it holds.
pub proof fn law_stream_head_is_shown_whole(head: StreamHead)
    ensures
        head@.status == head.status,
        head@.content_type == head.content_type@,
        head@.content_length == head.content_length,
{
}

/// What is shown of a command is its program and its arguments, in order.
pub proof fn law_command_is_shown_whole(command: CommandLine)
    ensures
        command@.program == command.program@,
        command@.args.len() == command.args@.len(),
        forall|i: int|
            0 <= i < command.args@.len() ==> #[trigger] command@.args[i] == command.args@[i]@,
{
}

/// A call of `nix` has the arguments that it is given.
pub proof fn law_nix_is_called_with_its_arguments(args: Seq<Seq<char>>)
    ensures
        reply::nix_with(args) == (CommandLineView { program: "nix"@, args }),
{
}

/// What is shown of an outcome is what came of the command.
pub proof fn law_outcome_is_shown_whole(outcome: Outcome)
    ensures
        match outcome {
            Outcome::NotStarted => outcome@ == OutcomeView::NotStarted,
            Outcome::Finished { success, stdout } => outcome@ == (OutcomeView::Finished {
                success,
                stdout: stdout@,
            }),
        },
{
}

/// What is shown of a plan is its command and its length.
pub proof fn law_stream_plan_is_shown_whole(plan: StreamPlan)
    ensures
        plan@.command == plan.command@,
        plan@.content_length == plan.content_length,
{
}

/// What is shown of results that may be missing, or that may be a status, is the one
/// or the other.
pub proof fn law_results_are_shown_whole(
    text: String,
    info: PathInfo,
    plan: StreamPlan,
    head: StreamHead,
    status: Status,
)
    ensures
        store::shown(Some(text)) == Some(text@),
        store::shown(None) is None,
        store::shown_result(Ok(text)) == Ok::<Seq<char>, Status>(text@),
        store::shown_result(Err(status)) == Err::<Seq<char>, Status>(status),
        store::shown_info(Ok(info)) == Ok::<_, Status>(info@),
        store::shown_info(Err(status)) is Err,
        store::shown_info(Err(status))->Err_0 == status,
        store::shown_plan(Ok(plan)) == Ok::<_, Status>(plan@),
        store::shown_plan(Err(status)) is Err,
        store::shown_plan(Err(status))->Err_0 == status,
        store::shown_head(Ok(head)) == Ok::<_, Status>(head@),
        store::shown_head(Err(status)) is Err,
        store::shown_head(Err(status))->Err_0 == status,
{
}

/// What is shown of a request in service is what it holds.
pub proof fn law_serving_is_shown_whole(wanted: Wanted, serving: Serving)
    ensures
        match wanted {
            Wanted::NarInfo => wanted@ == WantedView::NarInfo,
            Wanted::Nar { expected_hash: None } => wanted@ == (WantedView::Nar {
                expected_hash: None,
            }),
            Wanted::Nar { expected_hash: Some(hash) } => wanted@ == (WantedView::Nar {
                expected_hash: Some(hash@),
            }),
        },
        match serving {
            Serving::FindingPath { hash_part, wanted } => serving@ == (ServingView::FindingPath {
                hash_part: hash_part@,
                wanted: wanted@,
            }),
            Serving::FindingInfo { hash_part, wanted, store_path } => serving@ == (
            ServingView::FindingInfo {
                hash_part: hash_part@,
                wanted: wanted@,
                store_path: store_path@,
            }),
        },
{
}

/// What is shown of a step is what it holds.
pub proof fn law_step_is_shown_whole(step: Step)
    ensures
        match step {
            Step::Run(command, serving) => step@ == StepView::Run(command@, serving@),
            Step::Stream(plan) => step@ == StepView::Stream(plan@),
            Step::Answer(reply) => step@ == StepView::Answer(reply@),
            Step::Fail(status) => step@ == StepView::Fail(status),
        },
{
}

/// What is shown of a step of a refresh is what it holds.
pub proof fn law_refresh_step_is_shown_whole(step: RefreshStep)
    ensures
        match step {
            RefreshStep::Wait => step@ == RefreshStepView::Wait,
            RefreshStep::Check(None, checking) => step@ == RefreshStepView::Check(None, checking@),
            RefreshStep::Check(Some(url), checking) => step@ == RefreshStepView::Check(
                Some(url@),
                checking@,
            ),
        },
{
}

/// What is shown of a step of forwarding is what it holds.
pub proof fn law_forward_step_is_shown_whole(step: ForwardStep)
    ensures
        match step {
            ForwardStep::Refresh(refreshing) => step@ == ForwardStepView::Refresh(refreshing@),
            ForwardStep::Send(url, sending) => step@ == ForwardStepView::Send(url@, sending@),
            ForwardStep::NotForwarded => step@ == ForwardStepView::NotForwarded,
        },
{
}

} // verus!
