//! What holds of the bridge whatever happens to it.
//!
//! The laws speak of the models of the two ends: of a handle and everything
//! that can happen to it, in any order, and of a worker and everything that
//! can be reported to it. They are proved from the transition functions that
//! the contracts of `JsCoreHandle` and `JsCore` are stated over.

use vstd::prelude::*;
use crate::agent::{
    begin, prompts, query, session_step, AgentActionView, AgentEventView, AgentStage, CommandView,
    ErrorView, SessionView,
};
use crate::handle::{
    awaits, call_state, close, collect, collected, deliver, delivery, refusal, register, release,
    valid, HandleView,
};
use crate::protocol::{answer, boot_id, Outcome, RequestView, ResponseView};
use crate::worker::{
    created, halt, sound, step, ActionView, Binding, EventView, Fault, WorkerPhase, WorkerView,
};

verus! {

/// One thing that can happen to a handle.
pub enum HandleEvent {
    /// A call is opened under the id; it is registered unless it is refused.
    Register(Seq<char>),
    /// A response arrives.
    Deliver(ResponseView),
    /// The bridge is closed.
    Close,
    /// The call under the id is collected.
    Collect(Seq<char>),
    /// The call under the id is given up.
    Cancel(Seq<char>),
}

/// The handle after one event.
pub open spec fn apply(h: HandleView, event: HandleEvent) -> HandleView {
    match event {
        HandleEvent::Register(id) => if refusal(h, id) is None {
            register(h, id)
        } else {
            h
        },
        HandleEvent::Deliver(response) => deliver(h, response),
        HandleEvent::Close => close(h),
        HandleEvent::Collect(id) => collect(h, id),
        HandleEvent::Cancel(id) => release(h, id),
    }
}

/// The handle after a run of events, the first of them first.
pub open spec fn after(h: HandleView, events: Seq<HandleEvent>) -> HandleView
    decreases events.len(),
{
    if events.len() == 0 {
        h
    } else {
        apply(after(h, events.drop_last()), events.last())
    }
}

/// Whether the event takes the call `id` out of the table.
pub open spec fn ends_call(event: HandleEvent, id: Seq<char>) -> bool {
    event == HandleEvent::Collect(id) || event == HandleEvent::Cancel(id)
}

/// Whether the event is the arrival of a response under `id`.
pub open spec fn answers_call(event: HandleEvent, id: Seq<char>) -> bool {
    event matches HandleEvent::Deliver(response) && response.id == id
}

proof fn lemma_after_step(h: HandleView, events: Seq<HandleEvent>, i: int)
    requires
        0 <= i < events.len(),
    ensures
        after(h, events.take(i + 1)) == apply(after(h, events.take(i)), events[i]),
{
    assert(events.take(i + 1).drop_last() =~= events.take(i));
}

/// Every event keeps a handle valid.
pub proof fn law_handle_stays_valid(h: HandleView, event: HandleEvent)
    requires
        valid(h),
    ensures
        valid(apply(h, event)),
{
}

/// Every run of events keeps a handle valid.
pub proof fn law_handle_stays_valid_throughout(h: HandleView, events: Seq<HandleEvent>)
    requires
        valid(h),
    ensures
        valid(after(h, events)),
    decreases events.len(),
{
    if events.len() > 0 {
        law_handle_stays_valid_throughout(h, events.drop_last());
        law_handle_stays_valid(after(h, events.drop_last()), events.last());
    }
}

/// Readiness is reached once and then kept: whatever happens to a handle that
/// is ready, and in whatever order, it is ready afterwards. Asking for
/// readiness a second time therefore never waits.
pub proof fn law_readiness_is_kept(h: HandleView, events: Seq<HandleEvent>)
    requires
        h.boot is Ready,
    ensures
        after(h, events).boot is Ready,
    decreases events.len(),
{
    if events.len() > 0 {
        law_readiness_is_kept(h, events.drop_last());
    }
}

/// The boot is settled by one message at most: once a message under the
/// reserved id has counted, as the boot signal or as the notice of a failed
/// boot, no later response counts as either, whatever happens in between.
pub proof fn law_boot_settles_once(
    h: HandleView,
    events: Seq<HandleEvent>,
    first: ResponseView,
    second: ResponseView,
)
    requires
        delivery(h, first) is Booted || delivery(h, first) is BootFailed,
    ensures
        !(delivery(after(deliver(h, first), events), second) is Booted),
        !(delivery(after(deliver(h, first), events), second) is BootFailed),
{
    lemma_settled_boot_is_kept(deliver(h, first), events);
}

proof fn lemma_settled_boot_is_kept(h: HandleView, events: Seq<HandleEvent>)
    requires
        !(h.boot is Waiting),
    ensures
        !(after(h, events).boot is Waiting),
    decreases events.len(),
{
    if events.len() > 0 {
        lemma_settled_boot_is_kept(h, events.drop_last());
    }
}

/// Without the boot signal there is no readiness: a handle that is not ready
/// does not become so by any run of events in which no response arrives
/// under the reserved id with a success in it.
pub proof fn law_no_signal_no_readiness(h: HandleView, events: Seq<HandleEvent>)
    requires
        !(h.boot is Ready),
        forall|i: int|
            0 <= i < events.len() ==> !(#[trigger] events[i] matches HandleEvent::Deliver(response)
                && response.id == boot_id() && response.result is Ok),
    ensures
        !(after(h, events).boot is Ready),
    decreases events.len(),
{
    if events.len() > 0 {
        let front = events.drop_last();
        assert forall|i: int| 0 <= i < front.len() implies !(
        #[trigger] front[i] matches HandleEvent::Deliver(response) && response.id == boot_id()
            && response.result is Ok) by {
            assert(front[i] == events[i]);
        }
        law_no_signal_no_readiness(h, front);
        assert(events.last() == events[events.len() - 1]);
    }
}

/// A response touches no call but the one it is addressed to.
pub proof fn law_delivery_spares_other_calls(h: HandleView, response: ResponseView, id: Seq<char>)
    requires
        response.id != id,
    ensures
        deliver(h, response).calls.dom().contains(id) == h.calls.dom().contains(id),
        collected(deliver(h, response), id) == collected(h, id),
        call_state(deliver(h, response), id) == call_state(h, id),
{
}

/// Giving up or collecting one call touches no other.
pub proof fn law_release_spares_other_calls(h: HandleView, gone: Seq<char>, id: Seq<char>)
    requires
        gone != id,
    ensures
        call_state(release(h, gone), id) == call_state(h, id),
        collected(release(h, gone), id) == collected(h, id),
        call_state(collect(h, gone), id) == call_state(h, id),
        collected(collect(h, gone), id) == collected(h, id),
{
}

/// Two calls in flight on one handle each get their own response, whichever
/// of the two responses arrives first: both are routed, neither is dropped,
/// and the handle ends up the same either way.
pub proof fn law_answers_may_cross(h: HandleView, first: ResponseView, second: ResponseView)
    requires
        valid(h),
        !h.closed,
        first.id != second.id,
        awaits(h, first.id),
        awaits(h, second.id),
    ensures
        delivery(h, first) is Routed,
        delivery(deliver(h, first), second) is Routed,
        delivery(h, second) is Routed,
        delivery(deliver(h, second), first) is Routed,
        deliver(deliver(h, first), second) == deliver(deliver(h, second), first),
        collected(deliver(deliver(h, second), first), first.id) == Some(first.result),
        collected(deliver(deliver(h, second), first), second.id) == Some(second.result),
{
    let one = deliver(deliver(h, first), second);
    let other = deliver(deliver(h, second), first);
    assert(one.calls =~= other.calls);
}

/// A call that waits gets the first response that arrives under its id,
/// whatever else happens before and after: other calls may be opened,
/// answered, collected and given up, more responses under the same id may
/// follow, and the bridge may be closed once the response is in. Only a
/// closing of the bridge before the response, and the collecting or giving up
/// of the call itself, are left out.
pub proof fn law_first_answer_is_kept(
    h: HandleView,
    events: Seq<HandleEvent>,
    at: int,
    response: ResponseView,
)
    requires
        valid(h),
        !h.closed,
        awaits(h, response.id),
        0 <= at < events.len(),
        events[at] == HandleEvent::Deliver(response),
        forall|i: int| 0 <= i < at ==> !answers_call(#[trigger] events[i], response.id),
        forall|i: int| 0 <= i < at ==> !(#[trigger] events[i] is Close),
        forall|i: int| 0 <= i < events.len() ==> !ends_call(#[trigger] events[i], response.id),
    ensures
        collected(after(h, events), response.id) == Some(response.result),
        call_state(after(h, events), response.id) is Answered,
{
    let id = response.id;
    lemma_call_keeps_waiting(h, events.take(at), id);
    lemma_after_step(h, events, at);
    let answered = after(h, events.take(at + 1));
    assert(collected(answered, id) == Some(response.result));
    lemma_answer_is_kept(answered, events.skip(at + 1), id);
    lemma_after_splits(h, events, at + 1);
}

proof fn lemma_after_splits(h: HandleView, events: Seq<HandleEvent>, at: int)
    requires
        0 <= at <= events.len(),
    ensures
        after(h, events) == after(after(h, events.take(at)), events.skip(at)),
    decreases events.len() - at,
{
    if at == events.len() {
        assert(events.take(at) =~= events);
        assert(events.skip(at).len() == 0);
    } else {
        let front = events.drop_last();
        lemma_after_splits(h, front, at);
        assert(front.take(at) =~= events.take(at));
        assert(events.skip(at).drop_last() =~= front.skip(at));
        assert(events.skip(at).last() == events.last());
    }
}

proof fn lemma_call_keeps_waiting(h: HandleView, events: Seq<HandleEvent>, id: Seq<char>)
    requires
        !h.closed,
        awaits(h, id),
        forall|i: int| 0 <= i < events.len() ==> !answers_call(#[trigger] events[i], id),
        forall|i: int| 0 <= i < events.len() ==> !(#[trigger] events[i] is Close),
        forall|i: int| 0 <= i < events.len() ==> !ends_call(#[trigger] events[i], id),
    ensures
        !after(h, events).closed,
        awaits(after(h, events), id),
    decreases events.len(),
{
    if events.len() > 0 {
        let front = events.drop_last();
        assert forall|i: int| 0 <= i < front.len() implies !answers_call(
            #[trigger] front[i],
            id,
        ) && !(front[i] is Close) && !ends_call(front[i], id) by {
            assert(front[i] == events[i]);
        }
        lemma_call_keeps_waiting(h, front, id);
        assert(events.last() == events[events.len() - 1]);
    }
}

proof fn lemma_answer_is_kept(h: HandleView, events: Seq<HandleEvent>, id: Seq<char>)
    requires
        collected(h, id) is Some,
        forall|i: int| 0 <= i < events.len() ==> !ends_call(#[trigger] events[i], id),
    ensures
        collected(after(h, events), id) == collected(h, id),
    decreases events.len(),
{
    if events.len() > 0 {
        let front = events.drop_last();
        assert forall|i: int| 0 <= i < front.len() implies !ends_call(#[trigger] front[i], id) by {
            assert(front[i] == events[i]);
        }
        lemma_answer_is_kept(h, front, id);
        assert(events.last() == events[events.len() - 1]);
    }
}

/// An outcome is handed out once: collecting an answered call takes it out of
/// the table, so a second collection yields nothing and no response that
/// comes later under the same id is taken in.
pub proof fn law_outcome_is_collected_once(h: HandleView, id: Seq<char>, late: ResponseView)
    requires
        valid(h),
        collected(h, id) is Some,
        late.id == id,
    ensures
        collected(collect(h, id), id) is None,
        call_state(collect(h, id), id) is Unknown,
        delivery(collect(h, id), late) is Dropped,
{
}

/// A lost call stays lost, and a closed bridge stays closed: nothing that
/// arrives after the closing is taken in.
pub proof fn law_closing_is_final(h: HandleView, events: Seq<HandleEvent>, id: Seq<char>)
    requires
        h.closed,
        call_state(h, id) is Lost,
        forall|i: int| 0 <= i < events.len() ==> !ends_call(#[trigger] events[i], id),
    ensures
        after(h, events).closed,
        call_state(after(h, events), id) is Lost,
    decreases events.len(),
{
    if events.len() > 0 {
        let front = events.drop_last();
        assert forall|i: int| 0 <= i < front.len() implies !ends_call(#[trigger] front[i], id) by {
            assert(front[i] == events[i]);
        }
        law_closing_is_final(h, front, id);
        assert(events.last() == events[events.len() - 1]);
    }
}

/// A call comes back with what the engine made of its script. The handle
/// registers the call; a worker that serves takes the request, has its script
/// evaluated and posts the outcome under the request's id; the handle routes
/// that response to the call, and collecting the call yields the outcome, a
/// success or a failure as it was, and leaves the handle as it was before the
/// call.
pub proof fn law_call_round_trip(
    h: HandleView,
    w: WorkerView,
    id: Seq<char>,
    script: Seq<char>,
    outcome: Outcome,
)
    requires
        valid(h),
        refusal(h, id) is None,
        w.phase is Serving,
    ensures
        ({
            let request = RequestView { script, id };
            let registered = register(h, id);
            let (busy, first) = step(w, EventView::Received(request));
            let (done, second) = step(busy, EventView::Evaluated(outcome));
            let answered = deliver(registered, answer(request, outcome));
            &&& first == ActionView::Evaluate(script)
            &&& second == ActionView::Post(answer(request, outcome))
            &&& done.phase is Serving
            &&& delivery(registered, answer(request, outcome)) is Routed
            &&& collected(answered, id) == Some(outcome)
            &&& collect(answered, id) == h
        }),
{
    let request = RequestView { script, id };
    let answered = deliver(register(h, id), answer(request, outcome));
    assert(collect(answered, id).calls =~= h.calls);
}

/// The worker after a run of events, the first of them first.
pub open spec fn worker_after(w: WorkerView, events: Seq<EventView>) -> WorkerView
    decreases events.len(),
{
    if events.len() == 0 {
        w
    } else {
        step(worker_after(w, events.drop_last()), events.last()).0
    }
}

/// What the worker is told to do on the event at `at` of a run.
pub open spec fn action_at(w: WorkerView, events: Seq<EventView>, at: int) -> ActionView {
    step(worker_after(w, events.take(at)), events[at]).1
}

/// Whether the action puts a message under the reserved id into the mailbox.
pub open spec fn sends_boot_message(action: ActionView) -> bool {
    match action {
        ActionView::Post(response) => response.id == boot_id(),
        ActionView::Halt { notice, .. } => notice is Some,
        _ => false,
    }
}

proof fn lemma_worker_after_step(w: WorkerView, events: Seq<EventView>, i: int)
    requires
        0 <= i < events.len(),
    ensures
        worker_after(w, events.take(i + 1)) == step(worker_after(w, events.take(i)), events[i]).0,
{
    assert(events.take(i + 1).drop_last() =~= events.take(i));
}

/// Every event keeps a worker sound.
pub proof fn law_worker_stays_sound(w: WorkerView, event: EventView)
    requires
        sound(w),
    ensures
        sound(step(w, event).0),
{
}

/// Every run of events keeps a worker sound.
pub proof fn law_worker_stays_sound_throughout(w: WorkerView, events: Seq<EventView>)
    requires
        sound(w),
    ensures
        sound(worker_after(w, events)),
    decreases events.len(),
{
    if events.len() > 0 {
        law_worker_stays_sound_throughout(w, events.drop_last());
        law_worker_stays_sound(worker_after(w, events.drop_last()), events.last());
    }
}

/// A worker that has stopped does nothing more.
pub proof fn law_halted_worker_stays_halted(w: WorkerView, event: EventView)
    requires
        w.phase is Halted,
    ensures
        step(w, event) == halt(Fault::OutOfTurn, None),
{
}

/// An event loop that settles stops the worker, in whatever phase: a worker
/// never goes on serving, or waiting for its boot, behind a loop that will
/// run nothing more.
pub proof fn law_settled_loop_stops_worker(w: WorkerView, settled: Result<(), Seq<char>>)
    ensures
        step(w, EventView::LoopSettled(settled)).0.phase is Halted,
        step(w, EventView::LoopSettled(settled)).1 is Halt,
{
}

/// In a run in which the event loop settles at some point, the worker is
/// halted from that point on.
pub proof fn law_no_service_behind_settled_loop(
    w: WorkerView,
    events: Seq<EventView>,
    at: int,
)
    requires
        0 <= at < events.len(),
        events[at] is LoopSettled,
    ensures
        worker_after(w, events).phase is Halted,
    decreases events.len(),
{
    if at == events.len() - 1 {
        assert(events.last() == events[at]);
    } else {
        let front = events.drop_last();
        assert(front[at] == events[at]);
        law_no_service_behind_settled_loop(w, front, at);
    }
}

/// The boot signal waits for the binding: in a run from the start in which no
/// look into the global scope finds the binding defined, the worker never
/// comes to serve and never posts anything but, at most, the notice with
/// which it stops.
pub proof fn law_no_binding_no_boot_signal(events: Seq<EventView>, at: int)
    requires
        forall|i: int|
            0 <= i < events.len() ==> #[trigger] events[i] != EventView::Probed(
                Ok(Binding::Defined),
            ),
        0 <= at < events.len(),
    ensures
        !(worker_after(created(), events).phase is Serving),
        !(worker_after(created(), events).phase is Evaluating),
        !(action_at(created(), events, at) is Post),
        !(action_at(created(), events, at) is Evaluate),
{
    lemma_before_service(events);
    let front = events.take(at);
    assert forall|i: int| 0 <= i < front.len() implies #[trigger] front[i] != EventView::Probed(
        Ok(Binding::Defined),
    ) by {
        assert(front[i] == events[i]);
    }
    lemma_before_service(front);
    assert(events[at] != EventView::Probed(Ok(Binding::Defined)));
}

proof fn lemma_before_service(events: Seq<EventView>)
    requires
        forall|i: int|
            0 <= i < events.len() ==> #[trigger] events[i] != EventView::Probed(
                Ok(Binding::Defined),
            ),
    ensures
        !(worker_after(created(), events).phase is Serving),
        !(worker_after(created(), events).phase is Evaluating),
    decreases events.len(),
{
    if events.len() > 0 {
        let front = events.drop_last();
        assert forall|i: int| 0 <= i < front.len() implies #[trigger] front[i] != EventView::Probed(
            Ok(Binding::Defined),
        ) by {
            assert(front[i] == events[i]);
        }
        lemma_before_service(front);
        assert(events.last() == events[events.len() - 1]);
    }
}

/// Whether a worker in this phase has still to say how its boot went.
pub open spec fn boot_is_open(phase: WorkerPhase) -> bool {
    phase is Created || phase is Bootstrapping || phase is Priming || phase is Racing
}

/// In any run from the start, at most one message goes out under the
/// reserved id: the boot signal, or the notice of a failed boot, never both
/// and neither twice.
pub proof fn law_one_boot_message(events: Seq<EventView>, first: int, second: int)
    requires
        0 <= first < second < events.len(),
        sends_boot_message(action_at(created(), events, first)),
    ensures
        !sends_boot_message(action_at(created(), events, second)),
{
    lemma_boot_message_closes_boot(created(), events.take(first), events[first]);
    lemma_worker_after_step(created(), events, first);
    lemma_boot_stays_closed(created(), events, first + 1, second);
    lemma_boot_message_closes_boot(created(), events.take(second), events[second]);
}

proof fn lemma_boot_message_closes_boot(w: WorkerView, events: Seq<EventView>, event: EventView)
    requires
        sound(w),
    ensures
        sends_boot_message(step(worker_after(w, events), event).1) ==> boot_is_open(
            worker_after(w, events).phase,
        ) && !boot_is_open(step(worker_after(w, events), event).0.phase),
{
    law_worker_stays_sound_throughout(w, events);
}

proof fn lemma_boot_stays_closed(w: WorkerView, events: Seq<EventView>, from: int, to: int)
    requires
        0 <= from <= to <= events.len(),
        !boot_is_open(worker_after(w, events.take(from)).phase),
    ensures
        !boot_is_open(worker_after(w, events.take(to)).phase),
    decreases to - from,
{
    if from < to {
        lemma_boot_stays_closed(w, events, from, to - 1);
        lemma_worker_after_step(w, events, to - 1);
    }
}

/// A session that is finished takes nothing more.
pub proof fn law_finished_session_stays_finished(s: SessionView, event: AgentEventView)
    requires
        s.stage is Finished,
    ensures
        session_step(s, event).0.stage is Finished,
        session_step(s, event).1 == AgentActionView::Fail(ErrorView::OutOfTurn),
{
}

/// A session puts one query at most: whatever is handed in while the query is
/// out ends the session.
pub proof fn law_session_ends_after_its_query(s: SessionView, event: AgentEventView)
    requires
        s.stage is Calling,
    ensures
        session_step(s, event).0.stage is Finished,
        !(session_step(s, event).1 is Call),
        !(session_step(s, event).1 is Ask),
{
}

/// The session after one line was handed in for each of `answers`, in order.
pub open spec fn session_after_lines(
    cap_token: Seq<char>,
    command: CommandView,
    answers: Seq<Seq<char>>,
) -> (SessionView, AgentActionView)
    decreases answers.len(),
{
    if answers.len() == 0 {
        begin(cap_token, command)
    } else {
        session_step(
            session_after_lines(cap_token, command, answers.drop_last()).0,
            AgentEventView::Line(answers.last()),
        )
    }
}

/// A session asks the prompts of its command in their order, one after each
/// line, and nothing else until all of them are answered.
pub proof fn law_session_asks_in_order(
    cap_token: Seq<char>,
    command: CommandView,
    answers: Seq<Seq<char>>,
)
    requires
        answers.len() < prompts(command).len(),
    ensures
        session_after_lines(cap_token, command, answers).1 == AgentActionView::Ask(
            prompts(command)[answers.len() as int],
        ),
        session_after_lines(cap_token, command, answers).0 == (SessionView {
            cap_token,
            command,
            answers,
            stage: AgentStage::Asking,
        }),
    decreases answers.len(),
{
    if answers.len() > 0 {
        law_session_asks_in_order(cap_token, command, answers.drop_last());
        assert(answers.drop_last().push(answers.last()) =~= answers);
    } else {
        assert(answers =~= Seq::empty());
    }
}

/// Once every prompt is answered the session puts the query that the command
/// makes of the answers, under the capability token it was opened with, or
/// fails where the answers do not agree.
pub proof fn law_session_calls_with_the_answers(
    cap_token: Seq<char>,
    command: CommandView,
    answers: Seq<Seq<char>>,
)
    requires
        answers.len() == prompts(command).len(),
    ensures
        session_after_lines(cap_token, command, answers).1 == (match query(command, answers) {
            Ok(call) => AgentActionView::Call { cap_token, query: call },
            Err(why) => AgentActionView::Fail(why),
        }),
    decreases answers.len(),
{
    if answers.len() > 0 {
        law_session_asks_in_order(cap_token, command, answers.drop_last());
        assert(answers.drop_last().push(answers.last()) =~= answers);
    } else {
        assert(answers =~= Seq::empty());
    }
}

} // verus!
