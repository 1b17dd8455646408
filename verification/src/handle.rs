//! The host's end of the bridge.
//!
//! A handle keeps one slot for every call in flight, keyed by the call's
//! correlation id. A response that arrives is put into the slot that waits for
//! it, whichever call the host is looking at just then, so calls that share a
//! handle get their own answers in whatever order these arrive. The handle
//! also remembers whether the worker has reported its boot, and whether the
//! bridge has been closed.

use vstd::prelude::*;
use crate::protocol::{
    boot_id, boot_signal_id, fresh_call_id, is_call_id, lemma_call_id_not_reserved, outcome_view,
    EngineError, JsCoreRequest, JsCoreResponse, Outcome, RequestView, ResponseView,
};

verus! {

/// What the host knows of the worker's boot.
#[derive(Debug, Clone, Copy, PartialEq, Eq, Structural)]
pub enum Readiness {
    /// Nothing has been heard yet.
    Waiting,
    /// The boot signal has arrived.
    Ready,
    /// The worker reported that the engine cannot start.
    Failed,
    /// The bridge was closed before anything was heard.
    Lost,
}

/// What the host knows of one call.
#[derive(Debug, Clone, Copy, PartialEq, Eq, Structural)]
pub enum CallState {
    /// No call is registered under the id.
    Unknown,
    /// The call is registered; its response has not arrived.
    Waiting,
    /// The response has arrived and can be collected.
    Answered,
    /// The bridge was closed before the response arrived.
    Lost,
}

/// What became of a response that was handed to the handle.
#[derive(Debug, Clone, Copy, PartialEq, Eq, Structural)]
pub enum Delivery {
    /// It was the boot signal, and the first word from the worker.
    Booted,
    /// It was the notice of a failed boot, and the first word from the worker.
    BootFailed,
    /// It was put into the slot of the call that waited for it.
    Routed,
    /// Nothing waited for it.
    Dropped,
}

/// Why a call was not registered.
#[derive(Debug, Clone, Copy, PartialEq, Eq, Structural)]
pub enum Refusal {
    /// The bridge is closed.
    Closed,
    /// The id is the reserved one.
    Reserved,
    /// Another call is registered under the id.
    InFlight,
}

/// The boot as the model sees it: `Readiness` with the reason of a failure.
pub enum BootView {
    Waiting,
    Ready,
    Failed(Seq<char>),
    Lost,
}

/// The model of a handle.
pub struct HandleView {
    pub boot: BootView,
    pub closed: bool,
    /// The calls in flight: `None` while a call waits, `Some` once its
    /// response has arrived.
    pub calls: Map<Seq<char>, Option<Outcome>>,
}

/// What `initialized` says of a boot.
pub open spec fn readiness(boot: BootView) -> Readiness {
    match boot {
        BootView::Waiting => Readiness::Waiting,
        BootView::Ready => Readiness::Ready,
        BootView::Failed(_) => Readiness::Failed,
        BootView::Lost => Readiness::Lost,
    }
}

/// A handle that has heard nothing and holds no call.
pub open spec fn fresh_handle() -> HandleView {
    HandleView { boot: BootView::Waiting, closed: false, calls: Map::empty() }
}

/// Why `id` cannot be registered with `h`, if it cannot.
pub open spec fn refusal(h: HandleView, id: Seq<char>) -> Option<Refusal> {
    if h.closed {
        Some(Refusal::Closed)
    } else if id == boot_id() {
        Some(Refusal::Reserved)
    } else if h.calls.dom().contains(id) {
        Some(Refusal::InFlight)
    } else {
        None
    }
}

/// `h` with one more call, waiting under `id`.
pub open spec fn register(h: HandleView, id: Seq<char>) -> HandleView {
    HandleView { calls: h.calls.insert(id, None), ..h }
}

/// Whether a call waits under `id`.
pub open spec fn awaits(h: HandleView, id: Seq<char>) -> bool {
    h.calls.dom().contains(id) && h.calls[id] is None
}

/// What becomes of `response` when it is handed to `h`.
pub open spec fn delivery(h: HandleView, response: ResponseView) -> Delivery {
    if h.closed {
        Delivery::Dropped
    } else if response.id == boot_id() {
        if h.boot is Waiting {
            if response.result is Ok {
                Delivery::Booted
            } else {
                Delivery::BootFailed
            }
        } else {
            Delivery::Dropped
        }
    } else if awaits(h, response.id) {
        Delivery::Routed
    } else {
        Delivery::Dropped
    }
}

/// `h` after `response` was handed to it.
pub open spec fn deliver(h: HandleView, response: ResponseView) -> HandleView {
    match delivery(h, response) {
        Delivery::Booted => HandleView { boot: BootView::Ready, ..h },
        Delivery::BootFailed => HandleView { boot: BootView::Failed(response.result->Err_0), ..h },
        Delivery::Routed => HandleView {
            calls: h.calls.insert(response.id, Some(response.result)),
            ..h
        },
        Delivery::Dropped => h,
    }
}

/// `h` after the bridge was closed: a boot that was still awaited is lost, and
/// so is every call whose response has not arrived.
pub open spec fn close(h: HandleView) -> HandleView {
    HandleView {
        boot: if h.boot is Waiting {
            BootView::Lost
        } else {
            h.boot
        },
        closed: true,
        calls: h.calls,
    }
}

/// What `h` knows of the call registered under `id`.
pub open spec fn call_state(h: HandleView, id: Seq<char>) -> CallState {
    if !h.calls.dom().contains(id) {
        CallState::Unknown
    } else if h.calls[id] is Some {
        CallState::Answered
    } else if h.closed {
        CallState::Lost
    } else {
        CallState::Waiting
    }
}

/// `h` without the slot of `id`.
pub open spec fn release(h: HandleView, id: Seq<char>) -> HandleView {
    HandleView { calls: h.calls.remove(id), ..h }
}

/// What a collection of the call `id` yields: its outcome, once answered.
pub open spec fn collected(h: HandleView, id: Seq<char>) -> Option<Outcome> {
    if h.calls.dom().contains(id) {
        h.calls[id]
    } else {
        None
    }
}

/// `h` after the call `id` was collected: an answered call leaves the table,
/// any other stays as it is.
pub open spec fn collect(h: HandleView, id: Seq<char>) -> HandleView {
    if collected(h, id) is Some {
        release(h, id)
    } else {
        h
    }
}

/// What holds of the model of every handle: the reserved id names no call, the
/// calls are finitely many, and a closed bridge no longer awaits a boot.
pub open spec fn valid(h: HandleView) -> bool {
    &&& !h.calls.dom().contains(boot_id())
    &&& h.calls.dom().finite()
    &&& h.closed ==> !(h.boot is Waiting)
    &&& h.boot is Lost ==> h.closed
}

/// The view of a slot's reply, and of what a collection hands out: nothing
/// yet, or the outcome.
pub open spec fn reply_of(reply: Option<Result<String, EngineError>>) -> Option<Outcome> {
    match reply {
        Some(result) => Some(outcome_view(result)),
        None => None,
    }
}

#[derive(Debug)]
struct Slot {
    id: String,
    reply: Option<Result<String, EngineError>>,
}

#[derive(Debug)]
enum Boot {
    Waiting,
    Ready,
    Failed(EngineError),
    Lost,
}

/// The host's end of the bridge: the boot as far as it is known, and the
/// table of the calls in flight.
#[derive(Debug)]
pub struct JsCoreHandle {
    boot: Boot,
    closed: bool,
    slots: Vec<Slot>,
}

spec fn boot_view(boot: Boot) -> BootView {
    match boot {
        Boot::Waiting => BootView::Waiting,
        Boot::Ready => BootView::Ready,
        Boot::Failed(reason) => BootView::Failed(reason@),
        Boot::Lost => BootView::Lost,
    }
}

spec fn holds(slots: Seq<Slot>, id: Seq<char>) -> bool {
    exists|i: int| 0 <= i < slots.len() && (#[trigger] slots[i]).id@ == id
}

spec fn slot_of(slots: Seq<Slot>, id: Seq<char>) -> int {
    choose|i: int| 0 <= i < slots.len() && (#[trigger] slots[i]).id@ == id
}

spec fn distinct(slots: Seq<Slot>) -> bool {
    forall|i: int, j: int|
        0 <= i < j < slots.len() ==> (#[trigger] slots[i]).id@ != (#[trigger] slots[j]).id@
}

spec fn table(slots: Seq<Slot>) -> Map<Seq<char>, Option<Outcome>> {
    Map::new(
        |id: Seq<char>| holds(slots, id),
        |id: Seq<char>| reply_of(slots[slot_of(slots, id)].reply),
    )
}

/// With distinct ids, the table is the one map that has every slot's reply
/// under the slot's id and nothing else.
proof fn lemma_table_is(slots: Seq<Slot>, m: Map<Seq<char>, Option<Outcome>>)
    requires
        distinct(slots),
        forall|i: int|
            0 <= i < slots.len() ==> m.dom().contains((#[trigger] slots[i]).id@) && m[slots[i].id@]
                == reply_of(slots[i].reply),
        forall|id: Seq<char>| m.dom().contains(id) ==> holds(slots, id),
    ensures
        table(slots) == m,
{
    assert forall|id: Seq<char>| table(slots).dom().contains(id) implies m.dom().contains(
        id,
    ) && table(slots)[id] == m[id] by {
        let i = slot_of(slots, id);
        assert(slots[i].id@ == id);
    }
    assert(table(slots) =~= m);
}

proof fn lemma_table_at(slots: Seq<Slot>, i: int)
    requires
        distinct(slots),
        0 <= i < slots.len(),
    ensures
        table(slots).dom().contains(slots[i].id@),
        table(slots)[slots[i].id@] == reply_of(slots[i].reply),
{
    let id = slots[i].id@;
    assert(holds(slots, id));
    let j = slot_of(slots, id);
    assert(slots[j].id@ == id);
    assert(j == i);
}

impl View for JsCoreHandle {
    type V = HandleView;

    closed spec fn view(&self) -> HandleView {
        HandleView { boot: boot_view(self.boot), closed: self.closed, calls: table(self.slots@) }
    }
}

impl JsCoreHandle {
    /// What the fields owe each other: no two slots share an id.
    pub closed spec fn inv(&self) -> bool {
        distinct(self.slots@)
    }

    /// Well-formedness: every constructor gives it and every method keeps it.
    pub open spec fn wf(&self) -> bool {
        self.inv() && valid(self@)
    }

    /// A handle that has heard nothing and holds no call.
    pub fn new() -> (handle: JsCoreHandle)
        ensures
            handle.wf(),
            handle@ == fresh_handle(),
    {
        let handle = JsCoreHandle { boot: Boot::Waiting, closed: false, slots: Vec::new() };
        proof {
            lemma_table_is(handle.slots@, Map::empty());
            reveal_strlit("initialized");
        }
        handle
    }

    /// The index of the slot that is kept under `id`.
    fn find(&self, id: &String) -> (found: Option<usize>)
        requires
            self.inv(),
        ensures
            match found {
                Some(i) => i < self.slots@.len() && self.slots@[i as int].id@ == id@,
                None => !holds(self.slots@, id@),
            },
    {
        let mut i: usize = 0;
        while i < self.slots.len()
            invariant
                i <= self.slots@.len(),
                forall|j: int| 0 <= j < i ==> (#[trigger] self.slots@[j]).id@ != id@,
            decreases self.slots@.len() - i,
        {
            if self.slots[i].id == *id {
                return Some(i);
            }
            i += 1;
        }
        None
    }

    /// What is known of the worker's boot. Once this is `Ready` it stays so.
    pub fn initialized(&self) -> (known: Readiness)
        ensures
            known == readiness(self@.boot),
    {
        match &self.boot {
            Boot::Waiting => Readiness::Waiting,
            Boot::Ready => Readiness::Ready,
            Boot::Failed(_) => Readiness::Failed,
            Boot::Lost => Readiness::Lost,
        }
    }

    /// Why the engine could not start, where the worker has said so.
    pub fn boot_error(&self) -> (reason: Option<EngineError>)
        ensures
            match reason {
                Some(error) => self@.boot == BootView::Failed(error@) && error@.len() > 0,
                None => !(self@.boot is Failed),
            },
    {
        match &self.boot {
            Boot::Failed(error) => {
                let copy = error.clone();
                let _ = copy.description();
                Some(copy)
            },
            _ => None,
        }
    }

    /// Registers a call under `id` and gives the request to send for it. The
    /// call is refused, and nothing changes, where the bridge is closed, `id`
    /// is the reserved id, or a call is already registered under `id`.
    pub fn register(&mut self, id: String, script: String) -> (sent: Result<
        JsCoreRequest,
        Refusal,
    >)
        requires
            old(self).wf(),
        ensures
            final(self).wf(),
            match sent {
                Ok(request) => {
                    &&& refusal(old(self)@, id@) is None
                    &&& request@ == (RequestView { script: script@, id: id@ })
                    &&& final(self)@ == register(old(self)@, id@)
                },
                Err(why) => refusal(old(self)@, id@) == Some(why) && final(self)@ == old(self)@,
            },
    {
        if self.closed {
            return Err(Refusal::Closed);
        }
        let reserved = boot_signal_id();
        if id == reserved {
            return Err(Refusal::Reserved);
        }
        match self.find(&id) {
            Some(i) => {
                proof {
                    lemma_table_at(self.slots@, i as int);
                }
                Err(Refusal::InFlight)
            },
            None => {
                let request = JsCoreRequest { script, id: id.clone() };
                self.slots.push(Slot { id, reply: None });
                proof {
                    let before = old(self).slots@;
                    let after = self.slots@;
                    let wanted = table(before).insert(id@, None);
                    assert forall|i: int, j: int| 0 <= i < j < after.len() implies (
                    #[trigger] after[i]).id@ != (#[trigger] after[j]).id@ by {
                        if j == before.len() {
                            assert(before[i].id@ != id@);
                        }
                    }
                    assert forall|i: int| 0 <= i < after.len() implies wanted.dom().contains(
                        (#[trigger] after[i]).id@,
                    ) && wanted[after[i].id@] == reply_of(after[i].reply) by {
                        if i < before.len() {
                            lemma_table_at(before, i);
                        }
                    }
                    assert forall|x: Seq<char>| wanted.dom().contains(x) implies holds(
                        after,
                        x,
                    ) by {
                        if x == id@ {
                            assert(after[before.len() as int].id@ == x);
                        } else {
                            let i = slot_of(before, x);
                            assert(after[i].id@ == x);
                        }
                    }
                    lemma_table_is(after, wanted);
                }
                Ok(request)
            },
        }
    }

    /// Opens a call for `script` under a newly drawn correlation id and gives
    /// the request to send for it. Whatever id is drawn, the call is refused
    /// only where `refusal` says so of that id: where the bridge is closed, or
    /// where the drawn id is already in flight.
    pub fn execute(&mut self, script: String) -> (sent: Result<JsCoreRequest, Refusal>)
        requires
            old(self).wf(),
        ensures
            final(self).wf(),
            match sent {
                Ok(request) => {
                    &&& is_call_id(request@.id)
                    &&& request@.script == script@
                    &&& refusal(old(self)@, request@.id) is None
                    &&& final(self)@ == register(old(self)@, request@.id)
                },
                Err(why) => {
                    &&& final(self)@ == old(self)@
                    &&& why == Refusal::Closed <==> old(self)@.closed
                    &&& why == Refusal::InFlight <==> !old(self)@.closed
                    &&& why == Refusal::InFlight ==> exists|id: Seq<char>|
                        is_call_id(id) && #[trigger] old(self)@.calls.dom().contains(id)
                },
            },
    {
        let id = fresh_call_id();
        proof {
            lemma_call_id_not_reserved(id@);
        }
        self.register(id, script)
    }

    /// Hands a response to the handle. The boot signal, or the notice of a
    /// failed boot, settles the boot if it was still awaited; any other
    /// response goes into the slot of the call that waits under its id. What
    /// nothing waits for is dropped, as is everything after the bridge was
    /// closed, and changes nothing.
    pub fn deliver(&mut self, response: JsCoreResponse) -> (outcome: Delivery)
        requires
            old(self).wf(),
        ensures
            final(self).wf(),
            outcome == delivery(old(self)@, response@),
            final(self)@ == deliver(old(self)@, response@),
    {
        if self.closed {
            return Delivery::Dropped;
        }
        if response.is_boot_message() {
            return match &self.boot {
                Boot::Waiting => match response.result {
                    Ok(_) => {
                        self.boot = Boot::Ready;
                        Delivery::Booted
                    },
                    Err(reason) => {
                        self.boot = Boot::Failed(reason);
                        Delivery::BootFailed
                    },
                },
                _ => Delivery::Dropped,
            };
        }
        match self.find(&response.id) {
            Some(i) => {
                proof {
                    lemma_table_at(self.slots@, i as int);
                }
                if self.slots[i].reply.is_some() {
                    return Delivery::Dropped;
                }
                let ghost id = response.id@;
                let ghost filled = Some(outcome_view(response.result));
                self.slots.set(i, Slot { id: response.id, reply: Some(response.result) });
                proof {
                    let before = old(self).slots@;
                    let after = self.slots@;
                    let wanted = table(before).insert(id, filled);
                    assert forall|a: int, b: int| 0 <= a < b < after.len() implies (
                    #[trigger] after[a]).id@ != (#[trigger] after[b]).id@ by {
                        assert(after[a].id@ == before[a].id@);
                        assert(after[b].id@ == before[b].id@);
                    }
                    assert forall|a: int| 0 <= a < after.len() implies wanted.dom().contains(
                        (#[trigger] after[a]).id@,
                    ) && wanted[after[a].id@] == reply_of(after[a].reply) by {
                        lemma_table_at(before, a);
                        if a != i {
                            assert(before[a].id@ != before[i as int].id@);
                        }
                    }
                    assert forall|x: Seq<char>| wanted.dom().contains(x) implies holds(
                        after,
                        x,
                    ) by {
                        if x == id {
                            assert(after[i as int].id@ == x);
                        } else {
                            let a = slot_of(before, x);
                            assert(after[a].id@ == before[a].id@);
                        }
                    }
                    lemma_table_is(after, wanted);
                }
                Delivery::Routed
            },
            None => Delivery::Dropped,
        }
    }

    /// Records that the bridge is gone: a mailbox end was dropped. A boot that
    /// was still awaited is lost, and so is every call that still waits.
    pub fn close(&mut self)
        requires
            old(self).wf(),
        ensures
            final(self).wf(),
            final(self)@ == close(old(self)@),
    {
        self.closed = true;
        if let Boot::Waiting = &self.boot {
            self.boot = Boot::Lost;
        }
    }

    /// What is known of the call registered under `id`.
    pub fn status(&self, id: &String) -> (state: CallState)
        requires
            self.wf(),
        ensures
            state == call_state(self@, id@),
    {
        match self.find(id) {
            None => CallState::Unknown,
            Some(i) => {
                proof {
                    lemma_table_at(self.slots@, i as int);
                }
                if self.slots[i].reply.is_some() {
                    CallState::Answered
                } else if self.closed {
                    CallState::Lost
                } else {
                    CallState::Waiting
                }
            },
        }
    }

    /// Takes the outcome of the call registered under `id`, once its response
    /// has arrived, and frees the call's slot. A failure that is handed out
    /// has a description that is not empty. Where no outcome can be had,
    /// nothing changes.
    pub fn collect(&mut self, id: &String) -> (outcome: Option<Result<String, EngineError>>)
        requires
            old(self).wf(),
        ensures
            final(self).wf(),
            reply_of(outcome) == collected(old(self)@, id@),
            final(self)@ == collect(old(self)@, id@),
            outcome matches Some(Err(error)) ==> error@.len() > 0,
    {
        match self.find(id) {
            None => None,
            Some(i) => {
                proof {
                    lemma_table_at(self.slots@, i as int);
                }
                if self.slots[i].reply.is_none() {
                    return None;
                }
                let slot = self.slots.remove(i);
                proof {
                    lemma_table_without(old(self).slots@, i as int);
                }
                match &slot.reply {
                    Some(Err(error)) => {
                        let _ = error.description();
                    },
                    _ => {},
                }
                slot.reply
            },
        }
    }

    /// Gives up the call registered under `id`, answered or not, and says
    /// whether there was one. No other call is touched; a response that
    /// arrives for the call later is dropped.
    pub fn cancel(&mut self, id: &String) -> (released: bool)
        requires
            old(self).wf(),
        ensures
            final(self).wf(),
            released == old(self)@.calls.dom().contains(id@),
            final(self)@ == release(old(self)@, id@),
    {
        match self.find(id) {
            None => {
                assert(self@.calls.remove(id@) =~= self@.calls);
                false
            },
            Some(i) => {
                proof {
                    lemma_table_at(self.slots@, i as int);
                    lemma_table_without(self.slots@, i as int);
                }
                let _ = self.slots.remove(i);
                true
            },
        }
    }
}

/// Taking a slot out of distinct slots takes its id out of the table and
/// leaves the rest of the table as it was.
proof fn lemma_table_without(slots: Seq<Slot>, i: int)
    requires
        distinct(slots),
        0 <= i < slots.len(),
    ensures
        distinct(slots.remove(i)),
        table(slots.remove(i)) == table(slots).remove(slots[i].id@),
{
    let rest = slots.remove(i);
    let id = slots[i].id@;
    let wanted = table(slots).remove(id);
    let source = |a: int| if a < i { a } else { a + 1 };
    assert forall|a: int, b: int| 0 <= a < b < rest.len() implies (#[trigger] rest[a]).id@ != (
    #[trigger] rest[b]).id@ by {
        assert(rest[a] == slots[source(a)]);
        assert(rest[b] == slots[source(b)]);
    }
    assert forall|a: int| 0 <= a < rest.len() implies wanted.dom().contains(
        (#[trigger] rest[a]).id@,
    ) && wanted[rest[a].id@] == reply_of(rest[a].reply) by {
        assert(rest[a] == slots[source(a)]);
        lemma_table_at(slots, source(a));
        assert(slots[source(a)].id@ != slots[i].id@);
    }
    assert forall|x: Seq<char>| wanted.dom().contains(x) implies holds(rest, x) by {
        let a0 = slot_of(slots, x);
        assert(slots[a0].id@ == x);
        let a = if a0 < i { a0 } else { a0 - 1 };
        assert(rest[a] == slots[a0]);
    }
    lemma_table_is(rest, wanted);
}

} // verus!
