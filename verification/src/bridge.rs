//! A deterministic in-memory host runtime.
//!
//! The real bridge is a foreign surface the library cannot observe, so the
//! lifecycle laws are stated and proved against this model: it issues fresh
//! registration tokens, keeps the set of live registrations, records every
//! call in order, and can be scripted to fail its next removal or addition.
//! Tests drive the listener flows against it and read the log back.

use vstd::prelude::*;
use crate::error::{Error, ErrorView};
use crate::plugin_listener_handle::PluginListenerHandle;

verus! {

broadcast use vstd::std_specs::vec::group_vec_axioms, vstd::seq::group_seq_axioms;

/// One recorded call into the host runtime.
#[derive(Debug, PartialEq)]
pub enum BridgeCall {
    /// The `remove` capability of the registration with this identifier was
    /// invoked.
    Removed(u64),
    /// The `addListener` operation was invoked with this event name.
    Added(String),
}

/// The mathematical shape of a [`BridgeCall`].
pub enum CallView {
    Removed(u64),
    Added(Seq<char>),
}

impl View for BridgeCall {
    type V = CallView;

    open spec fn view(&self) -> CallView {
        match self {
            BridgeCall::Removed(id) => CallView::Removed(*id),
            BridgeCall::Added(name) => CallView::Added(name@),
        }
    }
}

/// The views of a sequence of recorded calls.
pub open spec fn call_views(log: Seq<BridgeCall>) -> Seq<CallView> {
    Seq::new(log.len(), |i: int| log[i]@)
}

/// The scripted host runtime.
#[derive(Debug)]
pub struct ScriptedBridge {
    next_id: u64,
    live: Vec<u64>,
    log: Vec<BridgeCall>,
    removal_fault: Option<String>,
    addition_fault: Option<String>,
}

impl ScriptedBridge {
    /// The identifier the next successful addition will return.
    pub closed spec fn spec_next(&self) -> u64 {
        self.next_id
    }

    /// The identifiers of the currently live registrations.
    pub closed spec fn spec_live(&self) -> Seq<u64> {
        self.live@
    }

    /// Everything that has been asked of the runtime, in order.
    pub closed spec fn spec_log(&self) -> Seq<CallView> {
        call_views(self.log@)
    }

    /// The scripted failure of the next removal, if any.
    pub closed spec fn spec_removal_fault(&self) -> Option<Seq<char>> {
        match self.removal_fault {
            Some(ref m) => Some(m@),
            None => None,
        }
    }

    /// The scripted failure of the next addition, if any.
    pub closed spec fn spec_addition_fault(&self) -> Option<Seq<char>> {
        match self.addition_fault {
            Some(ref m) => Some(m@),
            None => None,
        }
    }

    /// Every live registration was issued earlier than the next identifier,
    /// so freshly issued identifiers are never already live.
    pub closed spec fn wf(&self) -> bool {
        forall|i: int| 0 <= i < self.live@.len() ==> #[trigger] self.live@[i] < self.next_id
    }

    /// A runtime with no registrations, an empty log and no scripted
    /// faults.
    pub fn new() -> (b: Self)
        ensures
            b.wf(),
            b.spec_next() == 1,
            b.spec_live() == Seq::<u64>::empty(),
            b.spec_log() == Seq::<CallView>::empty(),
            b.spec_removal_fault() is None,
            b.spec_addition_fault() is None,
    {
        let b = ScriptedBridge {
            next_id: 1,
            live: Vec::new(),
            log: Vec::new(),
            removal_fault: None,
            addition_fault: None,
        };
        proof {
            assert(call_views(b.log@) =~= Seq::<CallView>::empty());
        }
        b
    }

    /// Everything that has been asked of the runtime, in order.
    pub fn calls(&self) -> (r: &Vec<BridgeCall>)
        ensures
            r@.len() == self.spec_log().len(),
            forall|i: int| 0 <= i < r@.len() ==> (#[trigger] r@[i])@ == self.spec_log()[i],
    {
        proof {
            assert forall|i: int| 0 <= i < self.log@.len()
                implies (#[trigger] self.log@[i])@ == call_views(self.log@)[i] by {
            }
        }
        &self.log
    }

    /// Whether a registration with this identifier is currently live.
    pub fn is_live(&self, id: u64) -> (r: bool)
        ensures
            r == self.spec_live().contains(id),
    {
        let mut i: usize = 0;
        while i < self.live.len()
            invariant
                i <= self.live.len(),
                forall|k: int| 0 <= k < i as int ==> self.live@[k] != id,
            decreases self.live.len() - i,
        {
            if self.live[i] == id {
                return true;
            }
            i += 1;
        }
        false
    }

    /// Script the next removal call to reject with this message.
    pub fn fail_next_removal(&mut self, message: String)
        ensures
            final(self).spec_removal_fault() == Some(message@),
            final(self).spec_addition_fault() == old(self).spec_addition_fault(),
            final(self).spec_next() == old(self).spec_next(),
            final(self).spec_live() == old(self).spec_live(),
            final(self).spec_log() == old(self).spec_log(),
            final(self).wf() == old(self).wf(),
    {
        self.removal_fault = Some(message);
    }

    /// Script the next addition call to reject with this message.
    pub fn fail_next_addition(&mut self, message: String)
        ensures
            final(self).spec_addition_fault() == Some(message@),
            final(self).spec_removal_fault() == old(self).spec_removal_fault(),
            final(self).spec_next() == old(self).spec_next(),
            final(self).spec_live() == old(self).spec_live(),
            final(self).spec_log() == old(self).spec_log(),
            final(self).wf() == old(self).wf(),
    {
        self.addition_fault = Some(message);
    }

    /// Invoke the `remove` capability of a registration token.  The call is
    /// always logged; if a removal fault was scripted it is consumed and the
    /// call rejects, leaving the registration live, otherwise the
    /// registration stops being live.
    pub fn remove_registration(&mut self, handle: PluginListenerHandle) -> (r: Result<(), Error>)
        ensures
            old(self).wf() ==> final(self).wf(),
            final(self).spec_log() == old(self).spec_log() + seq![CallView::Removed(handle@)],
            final(self).spec_next() == old(self).spec_next(),
            final(self).spec_addition_fault() == old(self).spec_addition_fault(),
            final(self).spec_removal_fault() is None,
            match old(self).spec_removal_fault() {
                Some(msg) => (r matches Err(e)
                    && e@ == (ErrorView::JsException { message: msg }))
                    && final(self).spec_live() == old(self).spec_live(),
                None => r is Ok && !final(self).spec_live().contains(handle@)
                    && (forall|x: u64| x != handle@
                        ==> (#[trigger] final(self).spec_live().contains(x)
                            <==> old(self).spec_live().contains(x)))
                    && (forall|i: int| 0 <= i < final(self).spec_live().len()
                        ==> old(self).spec_live().contains(
                            #[trigger] final(self).spec_live()[i],
                        )),
            },
    {
        self.log.push(BridgeCall::Removed(handle.raw_id()));
        proof {
            assert(call_views(self.log@)
                =~= call_views(old(self).log@) + seq![CallView::Removed(handle@)]);
        }
        match self.removal_fault.take() {
            Some(msg) => Err(Error::JsException { message: msg }),
            None => {
                let id = handle.raw_id();
                let mut kept: Vec<u64> = Vec::new();
                let mut i: usize = 0;
                while i < self.live.len()
                    invariant
                        i <= self.live.len(),
                        forall|x: u64| #[trigger] kept@.contains(x)
                            <==> (self.live@.subrange(0, i as int).contains(x) && x != id),
                        forall|k: int| 0 <= k < kept@.len()
                            ==> self.live@.contains(#[trigger] kept@[k]),
                    decreases self.live.len() - i,
                {
                    let ghost pre_kept = kept@;
                    let ghost pre_sub = self.live@.subrange(0, i as int);
                    let v = self.live[i];
                    if v != id {
                        kept.push(v);
                    }
                    i += 1;
                    proof {
                        let sub = self.live@.subrange(0, i as int);
                        assert(sub =~= pre_sub.push(v));
                        assert forall|x: u64| #[trigger] kept@.contains(x)
                            implies (sub.contains(x) && x != id) by {
                            let k = choose|k: int| 0 <= k < kept@.len() && kept@[k] == x;
                            if k < pre_kept.len() {
                                assert(pre_kept.contains(x));
                                let j = choose|j: int| 0 <= j < pre_sub.len()
                                    && pre_sub[j] == x;
                                assert(sub[j] == x);
                            } else {
                                assert(x == v);
                                assert(sub[sub.len() - 1] == v);
                            }
                        }
                        assert forall|x: u64| sub.contains(x) && x != id
                            implies kept@.contains(x) by {
                            let j = choose|j: int| 0 <= j < sub.len() && sub[j] == x;
                            if j < pre_sub.len() {
                                assert(pre_sub[j] == x);
                                assert(pre_kept.contains(x));
                                let k = choose|k: int| 0 <= k < pre_kept.len()
                                    && pre_kept[k] == x;
                                assert(kept@[k] == x);
                            } else {
                                assert(x == v);
                                assert(kept@[kept@.len() - 1] == v);
                            }
                        }
                        assert forall|k: int| 0 <= k < kept@.len()
                            implies self.live@.contains(#[trigger] kept@[k]) by {
                            if k < pre_kept.len() {
                                assert(pre_kept[k] == kept@[k]);
                            } else {
                                assert(kept@[k] == v);
                                assert(self.live@[i - 1] == v);
                            }
                        }
                    }
                }
                proof {
                    assert(self.live@.subrange(0, self.live@.len() as int) =~= self.live@);
                    if old(self).wf() {
                        assert forall|k: int| 0 <= k < kept@.len()
                            implies #[trigger] kept@[k] < self.next_id by {
                            let j = choose|j: int| 0 <= j < self.live@.len()
                                && self.live@[j] == kept@[k];
                        }
                    }
                }
                self.live = kept;
                Ok(())
            },
        }
    }

    /// Invoke the `addListener` operation with an event name.  The call is
    /// always logged; if an addition fault was scripted it is consumed and
    /// the call rejects, otherwise a fresh registration token is issued and
    /// becomes live.
    pub fn add_listener(&mut self, event_name: &str) -> (r: Result<PluginListenerHandle, Error>)
        requires
            old(self).wf(),
            old(self).spec_next() < u64::MAX,
        ensures
            final(self).wf(),
            final(self).spec_log() == old(self).spec_log() + seq![CallView::Added(event_name@)],
            final(self).spec_removal_fault() == old(self).spec_removal_fault(),
            final(self).spec_addition_fault() is None,
            match old(self).spec_addition_fault() {
                Some(msg) => (r matches Err(e)
                    && e@ == (ErrorView::JsException { message: msg }))
                    && final(self).spec_live() == old(self).spec_live()
                    && final(self).spec_next() == old(self).spec_next(),
                None => (r matches Ok(h) && h@ == old(self).spec_next()
                    && !old(self).spec_live().contains(h@)
                    && final(self).spec_live() == old(self).spec_live().push(h@)
                    && final(self).spec_next() == old(self).spec_next() + 1),
            },
    {
        self.log.push(BridgeCall::Added(event_name.to_owned()));
        proof {
            assert(call_views(self.log@)
                =~= call_views(old(self).log@) + seq![CallView::Added(event_name@)]);
        }
        match self.addition_fault.take() {
            Some(msg) => Err(Error::JsException { message: msg }),
            None => {
                let id = self.next_id;
                proof {
                    if old(self).spec_live().contains(id) {
                        let k = choose|k: int| 0 <= k < old(self).live@.len()
                            && old(self).live@[k] == id;
                        assert(old(self).live@[k] < id);
                    }
                }
                self.next_id = id + 1;
                self.live.push(id);
                Ok(PluginListenerHandle::new(id))
            },
        }
    }
}

} // verus!
