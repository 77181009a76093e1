//! The callback bridges: the state a frame-ready registration and a
//! device-event registration move through, from registering with the
//! native layer to tearing down.
//!
//! The native layer stores a raw pointer to a heap-boxed closure and
//! invokes it from its own delivery thread; the trampoline that makes
//! that call lives outside this crate.  What is verified here is the
//! discipline those pieces must follow: the closure is invoked exactly
//! once per event, the frame indices it observes strictly increase, and
//! tear-down unregisters the native callback exactly once and frees the
//! closure exactly once — after which no delivery can reach it.

use vstd::prelude::*;
use crate::device::DeviceInfo;
use crate::types::DeviceState;
use crate::types::RawStatus;
use crate::types::STATUS_OK;
use crate::types::Status;

verus! {

/// A sequence of frame indices in strictly increasing order.
pub open spec fn strictly_increasing(s: Seq<usize>) -> bool {
    forall|i: int, j: int| 0 <= i < j < s.len() ==> #[trigger] s[i] < #[trigger] s[j]
}

/// A live frame-ready callback registration on one stream.
///
/// The listener owns — outside this crate — a heap-boxed closure and
/// the native registration handle.  This type tracks what must be true
/// of them: whether the registration is still active, whether the
/// closure has been freed, how often each tear-down step ran, and the
/// exact sequence of frame indices delivered to the closure.
#[derive(Clone)]
pub struct StreamListener {
    registered: bool,
    closure_freed: bool,
    unregisters: u64,
    frees: u64,
    invocations: u64,
    last_delivered: Option<usize>,
    history: Ghost<Seq<usize>>,
}

impl StreamListener {
    /// Whether the native registration is still active.
    pub closed spec fn spec_registered(self) -> bool {
        self.registered
    }

    /// Whether the boxed closure has been freed.
    pub closed spec fn spec_closure_freed(self) -> bool {
        self.closure_freed
    }

    /// How often the native unregister call was issued.
    pub closed spec fn spec_unregisters(self) -> int {
        self.unregisters as int
    }

    /// How often the closure allocation was freed.
    pub closed spec fn spec_frees(self) -> int {
        self.frees as int
    }

    /// How often the closure has been invoked.
    pub closed spec fn spec_invocations(self) -> int {
        self.invocations as int
    }

    /// The index of the last frame delivered, if any was.
    pub closed spec fn spec_last_delivered(self) -> Option<usize> {
        self.last_delivered
    }

    /// Every frame index delivered to the closure, in delivery order.
    pub closed spec fn spec_history(self) -> Seq<usize> {
        self.history@
    }

    /// The listener's invariant.  While registered, no tear-down step
    /// has run; the closure is freed exactly by the one free; the
    /// closure ran once per recorded delivery; and the recorded indices
    /// strictly increase.
    pub open spec fn wf(self) -> bool {
        &&& 0 <= self.spec_unregisters() <= 1
        &&& 0 <= self.spec_frees() <= 1
        &&& (self.spec_registered() ==> self.spec_unregisters() == 0 && self.spec_frees() == 0)
        &&& (self.spec_closure_freed() <==> self.spec_frees() == 1)
        &&& self.spec_invocations() == self.spec_history().len()
        &&& (match self.spec_last_delivered() {
            None => self.spec_history().len() == 0,
            Some(l) => self.spec_history().len() > 0 && self.spec_history()[self.spec_history().len()
                - 1] == l,
        })
        &&& strictly_increasing(self.spec_history())
    }

    /// Interprets the outcome of the native registration call: a fresh,
    /// registered listener with no deliveries on success, the
    /// structured status on failure.
    pub fn register(raw: RawStatus) -> (r: Result<StreamListener, Status>)
        ensures
            r is Ok <==> raw.code == STATUS_OK,
            r matches Ok(l) ==> {
                &&& l.wf()
                &&& l.spec_registered()
                &&& !l.spec_closure_freed()
                &&& l.spec_unregisters() == 0
                &&& l.spec_frees() == 0
                &&& l.spec_invocations() == 0
                &&& l.spec_history() == Seq::<usize>::empty()
            },
            r matches Err(s) ==> s == Status::spec_of_raw(raw),
    {
        if raw.code == STATUS_OK {
            Ok(
                StreamListener {
                    registered: true,
                    closure_freed: false,
                    unregisters: 0,
                    frees: 0,
                    invocations: 0,
                    last_delivered: None,
                    history: Ghost(Seq::empty()),
                },
            )
        } else {
            Err(Status::from_raw(raw))
        }
    }

    /// Whether the native registration is still active.
    pub fn is_registered(&self) -> (r: bool)
        ensures
            r == self.spec_registered(),
    {
        self.registered
    }

    /// How often the closure has been invoked.
    pub fn invocations(&self) -> (r: u64)
        ensures
            r == self.spec_invocations(),
    {
        self.invocations
    }

    /// The index of the last frame delivered, if any was.
    pub fn last_delivered(&self) -> (r: Option<usize>)
        ensures
            r == self.spec_last_delivered(),
    {
        self.last_delivered
    }

    /// When a frame-ready event may be delivered: the registration is
    /// active, the closure still exists, and — the native layer
    /// delivers a stream's frames in order — the frame's index exceeds
    /// everything delivered before.
    pub open spec fn can_deliver(self, frame_index: usize) -> bool {
        &&& self.wf()
        &&& self.spec_registered()
        &&& self.spec_invocations() < u64::MAX
        &&& (match self.spec_last_delivered() {
            None => true,
            Some(l) => l < frame_index,
        })
    }

    /// One frame-ready event reaching the closure: the closure is
    /// invoked exactly once for it, and the frame's index is appended
    /// to the delivery history.
    pub fn deliver(&mut self, frame_index: usize)
        requires
            old(self).can_deliver(frame_index),
        ensures
            final(self).wf(),
            final(self).spec_registered(),
            final(self).spec_unregisters() == old(self).spec_unregisters(),
            final(self).spec_frees() == old(self).spec_frees(),
            final(self).spec_invocations() == old(self).spec_invocations() + 1,
            final(self).spec_history() == old(self).spec_history().push(frame_index),
            final(self).spec_last_delivered() == Some(frame_index),
    {
        proof {
            let h = self.history@;
            assert forall|i: int, j: int|
                0 <= i < j < h.push(frame_index).len() implies #[trigger] h.push(frame_index)[i]
                < #[trigger] h.push(frame_index)[j] by {
                if j < h.len() {
                } else {
                    if 0 <= i < h.len() - 1 {
                        assert(h[i] < h[h.len() - 1]);
                    }
                }
            }
        }
        self.invocations = self.invocations + 1;
        self.last_delivered = Some(frame_index);
        self.history = Ghost(self.history@.push(frame_index));
    }

    /// The tear-down transition: the registration goes inactive, the
    /// native unregister call and the closure free each ran once more,
    /// and the delivery record is untouched.
    pub open spec fn shutdown_transition(pre: StreamListener, post: StreamListener) -> bool {
        &&& !post.spec_registered()
        &&& post.spec_closure_freed()
        &&& post.spec_unregisters() == pre.spec_unregisters() + 1
        &&& post.spec_frees() == pre.spec_frees() + 1
        &&& post.spec_invocations() == pre.spec_invocations()
        &&& post.spec_history() == pre.spec_history()
        &&& post.spec_last_delivered() == pre.spec_last_delivered()
    }

    /// The drop path of a listener: issues the native unregister call —
    /// which blocks until no invocation is in flight — and only then
    /// frees the closure allocation.
    pub fn shutdown(&mut self)
        requires
            old(self).wf(),
            old(self).spec_registered(),
        ensures
            final(self).wf(),
            StreamListener::shutdown_transition(*old(self), *final(self)),
    {
        self.registered = false;
        self.unregisters = self.unregisters + 1;
        self.frees = self.frees + 1;
        self.closure_freed = true;
    }
}

/// Tearing down a registered listener unregisters the native callback
/// exactly once and frees the closure exactly once — no double free, no
/// leak — and afterwards no frame-ready event can be delivered to the
/// closure any more.
pub proof fn lemma_shutdown_exactly_once(pre: StreamListener, post: StreamListener)
    requires
        pre.wf(),
        pre.spec_registered(),
        StreamListener::shutdown_transition(pre, post),
    ensures
        post.spec_unregisters() == 1,
        post.spec_frees() == 1,
        post.spec_closure_freed(),
        !post.spec_registered(),
        forall|i: usize| !(#[trigger] post.can_deliver(i)),
{
}

/// The frame indices a listener's closure observes strictly increase
/// across deliveries: each invocation sees a newer frame than every
/// invocation before it.
pub proof fn lemma_delivered_indices_increase(l: StreamListener)
    requires
        l.wf(),
    ensures
        forall|i: int, j: int|
            0 <= i < j < l.spec_history().len() ==> #[trigger] l.spec_history()[i]
                < #[trigger] l.spec_history()[j],
{
}

/// One notification from the native device table: a device appeared, a
/// device went away, or a device changed state.
#[derive(Debug, Clone, PartialEq, Eq)]
pub enum DeviceEvent {
    /// A device was connected; carries its descriptor.
    Connected(DeviceInfo),
    /// A device was disconnected; carries its descriptor.
    Disconnected(DeviceInfo),
    /// A device changed state; carries its descriptor and the state.
    StateChanged(DeviceInfo, DeviceState),
}

/// A live registration of the three device-event callbacks.
///
/// One heap allocation outside this crate holds all three closures; the
/// native layer fires one sub-callback per event.  This type tracks the
/// registration's state and how often each closure ran, so that the
/// demultiplexing — exactly one closure per event — and the tear-down
/// discipline are checked.
#[derive(Debug, Clone)]
pub struct DeviceCallbackHandle {
    registered: bool,
    closure_freed: bool,
    unregisters: u64,
    frees: u64,
    connected_calls: u64,
    disconnected_calls: u64,
    state_changed_calls: u64,
}

impl DeviceCallbackHandle {
    /// Whether the native registration is still active.
    pub closed spec fn spec_registered(self) -> bool {
        self.registered
    }

    /// Whether the shared closure allocation has been freed.
    pub closed spec fn spec_closure_freed(self) -> bool {
        self.closure_freed
    }

    /// How often the native unregister call was issued.
    pub closed spec fn spec_unregisters(self) -> int {
        self.unregisters as int
    }

    /// How often the closure allocation was freed.
    pub closed spec fn spec_frees(self) -> int {
        self.frees as int
    }

    /// How often the connected closure ran.
    pub closed spec fn spec_connected_calls(self) -> int {
        self.connected_calls as int
    }

    /// How often the disconnected closure ran.
    pub closed spec fn spec_disconnected_calls(self) -> int {
        self.disconnected_calls as int
    }

    /// How often the state-changed closure ran.
    pub closed spec fn spec_state_changed_calls(self) -> int {
        self.state_changed_calls as int
    }

    /// The handle's invariant: while registered no tear-down step has
    /// run, and the closure allocation is freed exactly by the one
    /// free.
    pub open spec fn wf(self) -> bool {
        &&& 0 <= self.spec_unregisters() <= 1
        &&& 0 <= self.spec_frees() <= 1
        &&& (self.spec_registered() ==> self.spec_unregisters() == 0 && self.spec_frees() == 0)
        &&& (self.spec_closure_freed() <==> self.spec_frees() == 1)
    }

    /// Whether the native registration is still active.
    pub fn is_registered(&self) -> (r: bool)
        ensures
            r == self.spec_registered(),
    {
        self.registered
    }

    /// How often the connected closure ran.
    pub fn connected_calls(&self) -> (r: u64)
        ensures
            r == self.spec_connected_calls(),
    {
        self.connected_calls
    }

    /// How often the disconnected closure ran.
    pub fn disconnected_calls(&self) -> (r: u64)
        ensures
            r == self.spec_disconnected_calls(),
    {
        self.disconnected_calls
    }

    /// How often the state-changed closure ran.
    pub fn state_changed_calls(&self) -> (r: u64)
        ensures
            r == self.spec_state_changed_calls(),
    {
        self.state_changed_calls
    }

    /// One device event arriving from the native layer: exactly the
    /// closure registered for its kind runs, exactly once, and the
    /// other two do not run at all.
    pub fn dispatch(&mut self, event: &DeviceEvent)
        requires
            old(self).wf(),
            old(self).spec_registered(),
            old(self).spec_connected_calls() < u64::MAX,
            old(self).spec_disconnected_calls() < u64::MAX,
            old(self).spec_state_changed_calls() < u64::MAX,
        ensures
            final(self).wf(),
            final(self).spec_registered(),
            final(self).spec_connected_calls() == old(self).spec_connected_calls() + (
            if event is Connected {
                1int
            } else {
                0int
            }),
            final(self).spec_disconnected_calls() == old(self).spec_disconnected_calls() + (
            if event is Disconnected {
                1int
            } else {
                0int
            }),
            final(self).spec_state_changed_calls() == old(self).spec_state_changed_calls() + (
            if event is StateChanged {
                1int
            } else {
                0int
            }),
    {
        match event {
            DeviceEvent::Connected(_) => {
                self.connected_calls = self.connected_calls + 1;
            },
            DeviceEvent::Disconnected(_) => {
                self.disconnected_calls = self.disconnected_calls + 1;
            },
            DeviceEvent::StateChanged(_, _) => {
                self.state_changed_calls = self.state_changed_calls + 1;
            },
        }
    }

    /// The tear-down transition of the handle.
    pub open spec fn unregister_transition(
        pre: DeviceCallbackHandle,
        post: DeviceCallbackHandle,
    ) -> bool {
        &&& !post.spec_registered()
        &&& post.spec_closure_freed()
        &&& post.spec_unregisters() == pre.spec_unregisters() + 1
        &&& post.spec_frees() == pre.spec_frees() + 1
        &&& post.spec_connected_calls() == pre.spec_connected_calls()
        &&& post.spec_disconnected_calls() == pre.spec_disconnected_calls()
        &&& post.spec_state_changed_calls() == pre.spec_state_changed_calls()
    }

    /// Unregisters the device callbacks and frees the shared closure
    /// allocation — the drop path of the handle.
    pub fn unregister(&mut self)
        requires
            old(self).wf(),
            old(self).spec_registered(),
        ensures
            final(self).wf(),
            DeviceCallbackHandle::unregister_transition(*old(self), *final(self)),
    {
        self.registered = false;
        self.unregisters = self.unregisters + 1;
        self.frees = self.frees + 1;
        self.closure_freed = true;
    }
}

/// Tearing down a registered device-callback handle unregisters the
/// native callbacks exactly once and frees the closure allocation
/// exactly once, and no further event can be dispatched through it.
pub proof fn lemma_unregister_exactly_once(pre: DeviceCallbackHandle, post: DeviceCallbackHandle)
    requires
        pre.wf(),
        pre.spec_registered(),
        DeviceCallbackHandle::unregister_transition(pre, post),
    ensures
        post.spec_unregisters() == 1,
        post.spec_frees() == 1,
        post.spec_closure_freed(),
        !post.spec_registered(),
{
}

/// Interprets the outcome of registering the three device-event
/// callbacks with the native layer: a live handle counting no events on
/// success, the structured status on failure.
pub fn register_device_callbacks(raw: RawStatus) -> (r: Result<DeviceCallbackHandle, Status>)
    ensures
        r is Ok <==> raw.code == STATUS_OK,
        r matches Ok(h) ==> {
            &&& h.wf()
            &&& h.spec_registered()
            &&& !h.spec_closure_freed()
            &&& h.spec_connected_calls() == 0
            &&& h.spec_disconnected_calls() == 0
            &&& h.spec_state_changed_calls() == 0
        },
        r matches Err(s) ==> s == Status::spec_of_raw(raw),
{
    if raw.code == STATUS_OK {
        Ok(
            DeviceCallbackHandle {
                registered: true,
                closure_freed: false,
                unregisters: 0,
                frees: 0,
                connected_calls: 0,
                disconnected_calls: 0,
                state_changed_calls: 0,
            },
        )
    } else {
        Err(Status::from_raw(raw))
    }
}

} // verus!
