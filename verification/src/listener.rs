//! The listener lifecycle: one registration slot per logical event stream,
//! with swap-on-reregister and idempotent removal.
//!
//! A [`ListenerSlot`] holds at most one live registration.  Changing what a
//! slot listens to goes through [`ReregisterFlow`]: the previous registration
//! is detached and handed out for removal first, the outcome of that removal
//! is acknowledged (failure is reported but does not stop the change), and
//! only then is the new listener added and its token stored.  The flow's
//! phases make it impossible to add before the removal of the old token has
//! been acknowledged.
//!
//! The foreign calls themselves (the actual "remove" and "addListener"
//! operations of the host runtime) are performed by the caller between the
//! steps; each step tells the caller which call to make next.

use vstd::prelude::*;
use crate::bridge::{CallView, ScriptedBridge};
use crate::codec::BridgeDto;
use crate::error::{Error, ErrorView};
use crate::helpers::deliver_event;
use crate::plugin_listener_handle::PluginListenerHandle;
use crate::value::Value;

verus! {

/// What the caller must ask the host runtime to do next.
#[derive(Debug)]
pub enum BridgeCommand {
    /// Invoke the `remove` capability of this registration token.
    RemoveRegistration(PluginListenerHandle),
    /// Invoke the `addListener` operation with this event name.
    AddListener(String),
}

/// The mathematical shape of a [`BridgeCommand`].
pub enum CommandView {
    RemoveRegistration(u64),
    AddListener(Seq<char>),
}

impl View for BridgeCommand {
    type V = CommandView;

    open spec fn view(&self) -> CommandView {
        match self {
            BridgeCommand::RemoveRegistration(h) => CommandView::RemoveRegistration(h@),
            BridgeCommand::AddListener(name) => CommandView::AddListener(name@),
        }
    }
}

/// The single-registration storage for one logical event stream.
///
/// Its registration changes only through [`ListenerSlot::take_handle`] /
/// [`ListenerSlot::set_handle`] and the flows built on them, so a slot can
/// never hold more than one live registration.
#[derive(Debug)]
pub struct ListenerSlot {
    handle: Option<PluginListenerHandle>,
}

impl View for ListenerSlot {
    type V = Option<u64>;

    closed spec fn view(&self) -> Option<u64> {
        match self.handle {
            Some(h) => Some(h@),
            None => None,
        }
    }
}

impl ListenerSlot {
    /// An empty slot: nothing is listening.
    pub fn new() -> (r: Self)
        ensures
            r@ is None,
    {
        ListenerSlot { handle: None }
    }

    /// Whether the slot currently holds a registration.
    pub fn is_listening(&self) -> (r: bool)
        ensures
            r == (self@ is Some),
    {
        self.handle.is_some()
    }

    /// The currently held registration, if any.
    pub fn get_handle(&self) -> (r: &Option<PluginListenerHandle>)
        ensures
            match r {
                Some(h) => self@ == Some(h@),
                None => self@ is None,
            },
    {
        &self.handle
    }

    /// Detach and return the current registration, leaving the slot empty.
    pub fn take_handle(&mut self) -> (r: Option<PluginListenerHandle>)
        ensures
            final(self)@ is None,
            match r {
                Some(h) => old(self)@ == Some(h@),
                None => old(self)@ is None,
            },
    {
        self.handle.take()
    }

    /// Store a registration (or clear the slot).
    pub fn set_handle(&mut self, handle: Option<PluginListenerHandle>)
        ensures
            match handle {
                Some(h) => final(self)@ == Some(h@),
                None => final(self)@ is None,
            },
    {
        self.handle = handle;
    }
}

impl Default for ListenerSlot {
    /// A fresh slot starts empty.
    fn default() -> (r: Self)
        ensures
            r@ is None,
    {
        ListenerSlot::new()
    }
}

/// Begin removing whatever `slot` holds: the slot is emptied, and the
/// returned command (if any) removes the detached token.  On an already
/// empty slot there is nothing to do and the removal counts as succeeded —
/// removal is idempotent.
pub fn begin_remove(slot: &mut ListenerSlot) -> (r: Option<BridgeCommand>)
    ensures
        final(slot)@ is None,
        match old(slot)@ {
            Some(id) => (r matches Some(c) && c@ == CommandView::RemoveRegistration(id)),
            None => r is None,
        },
{
    match slot.take_handle() {
        Some(h) => Some(BridgeCommand::RemoveRegistration(h)),
        None => None,
    }
}

/// The phase a [`ReregisterFlow`] is in.
#[derive(Debug)]
enum FlowPhase {
    AwaitingRemoval,
    AwaitingAddition,
}

/// The protocol for changing what a slot listens to.
///
/// Obtained from [`ReregisterFlow::begin`], which detaches the previous
/// registration; advanced by [`ReregisterFlow::acknowledge_removal`] once the
/// removal call finished (however it went); finished by
/// [`ReregisterFlow::complete`], which stores the new token.  The phase
/// contracts force that order, so the removal of the old registration is
/// always requested — and its outcome known — before the new listener is
/// added.
#[derive(Debug)]
pub struct ReregisterFlow {
    event_name: String,
    phase: FlowPhase,
}

impl ReregisterFlow {
    /// The event name this flow (re)subscribes to.
    pub closed spec fn spec_event(&self) -> Seq<char> {
        self.event_name@
    }

    /// True while the removal of the previous registration is outstanding.
    pub closed spec fn awaiting_removal(&self) -> bool {
        self.phase is AwaitingRemoval
    }

    /// True while the addition of the new listener is outstanding.
    pub closed spec fn awaiting_addition(&self) -> bool {
        self.phase is AwaitingAddition
    }

    /// Begin changing what `slot` listens to.  The slot is emptied; if it
    /// held a registration, the first command removes it, otherwise the new
    /// listener can be added right away.
    pub fn begin(slot: &mut ListenerSlot, event_name: String) -> (r: (ReregisterFlow, BridgeCommand))
        ensures
            final(slot)@ is None,
            r.0.spec_event() == event_name@,
            match old(slot)@ {
                Some(id) => r.1@ == CommandView::RemoveRegistration(id)
                    && r.0.awaiting_removal(),
                None => r.1@ == CommandView::AddListener(event_name@)
                    && r.0.awaiting_addition(),
            },
    {
        match slot.take_handle() {
            Some(h) => (
                ReregisterFlow { event_name, phase: FlowPhase::AwaitingRemoval },
                BridgeCommand::RemoveRegistration(h),
            ),
            None => {
                let cmd_name = event_name.clone();
                (
                    ReregisterFlow { event_name, phase: FlowPhase::AwaitingAddition },
                    BridgeCommand::AddListener(cmd_name),
                )
            },
        }
    }

    /// Record how the removal of the previous registration went.  A failed
    /// removal is handed back to be reported, but it does not stop the
    /// change: a stale registration that would not remove must not prevent a
    /// fresh subscription.  Either way the returned event name is what the
    /// caller now passes to the host runtime's add-listener operation.
    pub fn acknowledge_removal(&mut self, outcome: Result<(), Error>) -> (r: (
        String,
        Option<Error>,
    ))
        requires
            old(self).awaiting_removal(),
        ensures
            final(self).awaiting_addition(),
            final(self).spec_event() == old(self).spec_event(),
            r.0@ == old(self).spec_event(),
            match outcome {
                Ok(()) => r.1 is None,
                Err(e) => r.1 == Some(e),
            },
    {
        self.phase = FlowPhase::AwaitingAddition;
        let name = self.event_name.clone();
        let report = match outcome {
            Ok(()) => None,
            Err(e) => Some(e),
        };
        (name, report)
    }

    /// Store the outcome of adding the new listener.  On success the slot
    /// holds the new token; on failure the slot is left empty and the error
    /// is returned — a failed registration never touches the slot.
    pub fn complete(self, slot: &mut ListenerSlot, outcome: Result<PluginListenerHandle, Error>)
        -> (r: Result<(), Error>)
        requires
            self.awaiting_addition(),
            old(slot)@ is None,
        ensures
            match outcome {
                Ok(h) => final(slot)@ == Some(h@) && r is Ok,
                Err(e) => final(slot)@ is None && r == Err::<(), Error>(e),
            },
    {
        match outcome {
            Ok(h) => {
                slot.set_handle(Some(h));
                Ok(())
            },
            Err(e) => Err(e),
        }
    }
}

/// A slot's registration, if any, was issued by a runtime whose next
/// identifier is `next`: freshly issued tokens can never collide with it.
pub open spec fn attached(slot_view: Option<u64>, next: u64) -> bool {
    match slot_view {
        Some(id) => id < next,
        None => true,
    }
}

/// Install a listener on an empty slot (the `Empty -> Registered`
/// transition): ask the runtime to add the listener and store the returned
/// token.  A failed registration never touches the slot.
pub fn register_with(bridge: &mut ScriptedBridge, slot: &mut ListenerSlot, event_name: &str)
    -> (r: Result<(), Error>)
    requires
        old(slot)@ is None,
        old(bridge).wf(),
        old(bridge).spec_next() < u64::MAX,
    ensures
        final(bridge).wf(),
        attached(final(slot)@, final(bridge).spec_next()),
        final(bridge).spec_log() == old(bridge).spec_log() + seq![CallView::Added(event_name@)],
        final(bridge).spec_removal_fault() == old(bridge).spec_removal_fault(),
        final(bridge).spec_addition_fault() is None,
        match old(bridge).spec_addition_fault() {
            None => r is Ok && final(slot)@ == Some(old(bridge).spec_next())
                && final(bridge).spec_next() == old(bridge).spec_next() + 1
                && final(bridge).spec_live().contains(old(bridge).spec_next()),
            Some(msg) => (r matches Err(e)
                && e@ == (ErrorView::JsException { message: msg }))
                && final(slot)@ is None
                && final(bridge).spec_live() == old(bridge).spec_live()
                && final(bridge).spec_next() == old(bridge).spec_next(),
        },
{
    match bridge.add_listener(event_name) {
        Ok(h) => {
            proof {
                assert(bridge.spec_live()[bridge.spec_live().len() - 1] == h@);
            }
            slot.set_handle(Some(h));
            Ok(())
        },
        Err(e) => Err(e),
    }
}

/// Swap what `slot` listens to (the `Registered -> Empty -> Registered`
/// transition), the only sanctioned way to change an occupied slot.  The
/// previous registration, if any, is removed first — its removal is in the
/// log before the new addition — and however that removal went, the new
/// listener is then added; the removal's error, if any, comes back in the
/// second component for reporting.
pub fn reregister_with(bridge: &mut ScriptedBridge, slot: &mut ListenerSlot, event_name: String)
    -> (r: (Result<(), Error>, Option<Error>))
    requires
        old(bridge).wf(),
        old(bridge).spec_next() < u64::MAX,
        attached(old(slot)@, old(bridge).spec_next()),
    ensures
        final(bridge).wf(),
        attached(final(slot)@, final(bridge).spec_next()),
        final(bridge).spec_addition_fault() is None,
        // a removal consumes a scripted removal fault; with no registration
        // to remove, the script is left in place
        match old(slot)@ {
            Some(_) => final(bridge).spec_removal_fault() is None,
            None => final(bridge).spec_removal_fault() == old(bridge).spec_removal_fault(),
        },
        // the old registration's removal is requested before the addition,
        // so the slot never has two registrations live at once
        match old(slot)@ {
            Some(prev) => final(bridge).spec_log() == old(bridge).spec_log()
                + seq![CallView::Removed(prev), CallView::Added(event_name@)],
            None => final(bridge).spec_log() == old(bridge).spec_log()
                + seq![CallView::Added(event_name@)],
        },
        // a failed removal is reported, never fatal; a successful removal
        // retires the old token for good
        match old(slot)@ {
            Some(prev) => match old(bridge).spec_removal_fault() {
                Some(msg) => (r.1 matches Some(e)
                    && e@ == (ErrorView::JsException { message: msg })),
                None => r.1 is None && !final(bridge).spec_live().contains(prev),
            },
            None => r.1 is None,
        },
        // the addition's outcome alone decides the slot and the result
        match old(bridge).spec_addition_fault() {
            None => r.0 is Ok && final(slot)@ == Some(old(bridge).spec_next())
                && final(bridge).spec_live().contains(old(bridge).spec_next())
                && final(bridge).spec_next() == old(bridge).spec_next() + 1,
            Some(msg) => (r.0 matches Err(e)
                && e@ == (ErrorView::JsException { message: msg }))
                && final(slot)@ is None
                && final(bridge).spec_next() == old(bridge).spec_next(),
        },
{
    let (flow, first) = ReregisterFlow::begin(slot, event_name);
    match first {
        BridgeCommand::RemoveRegistration(h) => {
            let mut flow = flow;
            let outcome = bridge.remove_registration(h);
            let (name, report) = flow.acknowledge_removal(outcome);
            let add_outcome = bridge.add_listener(name.as_str());
            proof {
                if add_outcome is Ok {
                    assert(bridge.spec_live()[bridge.spec_live().len() - 1]
                        == add_outcome->Ok_0@);
                }
            }
            let result = flow.complete(slot, add_outcome);
            (result, report)
        },
        BridgeCommand::AddListener(name) => {
            let add_outcome = bridge.add_listener(name.as_str());
            proof {
                if add_outcome is Ok {
                    assert(bridge.spec_live()[bridge.spec_live().len() - 1]
                        == add_outcome->Ok_0@);
                }
            }
            let result = flow.complete(slot, add_outcome);
            (result, None)
        },
    }
}

/// Remove whatever `slot` holds (the `Registered -> Empty` transition).
/// Removing an already empty slot is a no-op and succeeds: nothing is asked
/// of the runtime and nothing is logged.
pub fn remove_with(bridge: &mut ScriptedBridge, slot: &mut ListenerSlot) -> (r: Result<(), Error>)
    ensures
        final(slot)@ is None,
        old(bridge).wf() ==> final(bridge).wf(),
        final(bridge).spec_next() == old(bridge).spec_next(),
        final(bridge).spec_addition_fault() == old(bridge).spec_addition_fault(),
        match old(slot)@ {
            None => r is Ok
                && final(bridge).spec_log() == old(bridge).spec_log()
                && final(bridge).spec_live() == old(bridge).spec_live()
                && final(bridge).spec_removal_fault() == old(bridge).spec_removal_fault(),
            Some(id) => final(bridge).spec_log() == old(bridge).spec_log()
                + seq![CallView::Removed(id)]
                && final(bridge).spec_removal_fault() is None
                && match old(bridge).spec_removal_fault() {
                    None => r is Ok && !final(bridge).spec_live().contains(id),
                    Some(msg) => (r matches Err(e)
                        && e@ == (ErrorView::JsException { message: msg }))
                        && final(bridge).spec_live() == old(bridge).spec_live(),
                },
        },
{
    match slot.take_handle() {
        Some(h) => bridge.remove_registration(h),
        None => Ok(()),
    }
}

/// One logical event stream: the name it is registered under on the bridge
/// and the typed payload each delivered event decodes to.
pub trait ListenerEvent {
    /// The payload each delivered event decodes to.
    type Payload: BridgeDto;

    /// The event name passed to the host runtime's add-listener operation.
    spec fn spec_name() -> Seq<char>;

    /// The event name passed to the host runtime's add-listener operation.
    fn event_name() -> (r: String)
        ensures
            r@ == Self::spec_name(),
    ;
}

/// Begin changing what `slot` listens to for the event kind `E`: as
/// [`ReregisterFlow::begin`], with the flow pinned to `E`'s event name.
pub fn begin_reregister_for<E: ListenerEvent>(slot: &mut ListenerSlot) -> (r: (
    ReregisterFlow,
    BridgeCommand,
))
    ensures
        final(slot)@ is None,
        r.0.spec_event() == E::spec_name(),
        match old(slot)@ {
            Some(id) => r.1@ == CommandView::RemoveRegistration(id) && r.0.awaiting_removal(),
            None => r.1@ == CommandView::AddListener(E::spec_name()) && r.0.awaiting_addition(),
        },
{
    ReregisterFlow::begin(slot, E::event_name())
}

/// The trampoline's decode step for the event kind `E`: turns one raw event
/// into `E`'s typed payload, or a decode failure naming the payload type.
pub fn deliver_for<E: ListenerEvent>(raw: &Value) -> (r: Result<E::Payload, Error>)
    ensures
        <E::Payload as BridgeDto>::spec_accepts(raw@) <==> r is Ok,
        r matches Ok(t) ==> t.spec_encode() == raw@,
{
    deliver_event::<E::Payload>(raw)
}

/// At-most-one registration, seen in the call order: when a reregistration
/// appends `Removed(prev)` then `Added(name)` to the log, the removal of the
/// previous token stands strictly before the addition of the new one.
pub proof fn lemma_removal_precedes_addition(
    pre: Seq<CallView>,
    post: Seq<CallView>,
    prev: u64,
    name: Seq<char>,
)
    requires
        post == pre + seq![CallView::Removed(prev), CallView::Added(name)],
    ensures
        post.len() == pre.len() + 2,
        post[pre.len() as int] == CallView::Removed(prev),
        post[pre.len() as int + 1] == CallView::Added(name),
        exists|i: int, j: int| 0 <= i < j < post.len()
            && post[i] == CallView::Removed(prev) && post[j] == CallView::Added(name),
{
    assert(post[pre.len() as int] == CallView::Removed(prev));
    assert(post[pre.len() as int + 1] == CallView::Added(name));
}

} // verus!
