//! A recorder that persists attached streams' frames to a file: the
//! attach/start/stop lifecycle and the destroy-exactly-once discipline
//! of its native handle.

use vstd::prelude::*;
use crate::stream::Stream;
use crate::types::RawStatus;
use crate::types::STATUS_OK;
use crate::types::Status;

verus! {

/// One recorder bound to an output file.
///
/// The native recorder handle lives outside this crate; this type
/// tracks whether the handle still exists, whether recording is
/// running, and how many streams were attached.  Every transition takes
/// the raw outcome of the corresponding native call, and a failed call
/// leaves the recorder exactly as it was — in particular, an attach the
/// native layer refuses (such as one issued while recording runs)
/// surfaces the error without touching the recorder's state.
#[derive(Debug, Clone, PartialEq, Eq)]
pub struct Recorder {
    alive: bool,
    running: bool,
    attached: u64,
    destroys: u64,
}

impl Recorder {
    /// Whether the native recorder handle still exists.
    pub closed spec fn spec_alive(self) -> bool {
        self.alive
    }

    /// Whether recording is running.
    pub closed spec fn spec_running(self) -> bool {
        self.running
    }

    /// How many streams were attached.
    pub closed spec fn spec_attached(self) -> int {
        self.attached as int
    }

    /// How often the native destroy call was issued.
    pub closed spec fn spec_destroys(self) -> int {
        self.destroys as int
    }

    /// The recorder's invariant: the handle is destroyed at most once,
    /// and exists exactly until then.
    pub open spec fn wf(self) -> bool {
        &&& 0 <= self.spec_destroys() <= 1
        &&& (self.spec_alive() <==> self.spec_destroys() == 0)
    }

    /// Interprets the outcome of the native create call (the caller
    /// has already encoded the file path and made sure its parent
    /// directories exist): a fresh recorder with nothing attached on
    /// success, the structured status on failure.
    pub fn create(raw: RawStatus) -> (r: Result<Recorder, Status>)
        ensures
            r is Ok <==> raw.code == STATUS_OK,
            r matches Ok(rec) ==> {
                &&& rec.wf()
                &&& rec.spec_alive()
                &&& !rec.spec_running()
                &&& rec.spec_attached() == 0
            },
            r matches Err(s) ==> s == Status::spec_of_raw(raw),
    {
        if raw.code == STATUS_OK {
            Ok(Recorder { alive: true, running: false, attached: 0, destroys: 0 })
        } else {
            Err(Status::from_raw(raw))
        }
    }

    /// Whether the native recorder handle still exists.
    pub fn is_alive(&self) -> (r: bool)
        ensures
            r == self.spec_alive(),
    {
        self.alive
    }

    /// Whether recording is running.
    pub fn is_running(&self) -> (r: bool)
        ensures
            r == self.spec_running(),
    {
        self.running
    }

    /// How many streams were attached.
    pub fn attached(&self) -> (r: u64)
        ensures
            r == self.spec_attached(),
    {
        self.attached
    }

    /// Interprets the outcome of attaching a live stream.  On success
    /// one more stream is attached; on failure — the native layer
    /// refuses an attach while recording runs — the recorder is left
    /// exactly as it was and the caller gets the structured status.
    pub fn attach_stream(&mut self, stream: &Stream, raw: RawStatus) -> (r: Result<(), Status>)
        requires
            old(self).wf(),
            old(self).spec_alive(),
            stream.spec_alive(),
            old(self).spec_attached() < u64::MAX,
        ensures
            final(self).wf(),
            final(self).spec_alive(),
            final(self).spec_running() == old(self).spec_running(),
            r is Ok <==> raw.code == STATUS_OK,
            r is Ok ==> final(self).spec_attached() == old(self).spec_attached() + 1,
            r matches Err(s) ==> *final(self) == *old(self) && s == Status::spec_of_raw(raw),
    {
        if raw.code == STATUS_OK {
            self.attached = self.attached + 1;
            Ok(())
        } else {
            Err(Status::from_raw(raw))
        }
    }

    /// Interprets the outcome of the native start call: recording runs
    /// on success; a failure leaves the recorder exactly as it was.
    pub fn start(&mut self, raw: RawStatus) -> (r: Result<(), Status>)
        requires
            old(self).wf(),
            old(self).spec_alive(),
        ensures
            final(self).wf(),
            final(self).spec_alive(),
            final(self).spec_attached() == old(self).spec_attached(),
            r is Ok <==> raw.code == STATUS_OK,
            r is Ok ==> final(self).spec_running(),
            r matches Err(s) ==> *final(self) == *old(self) && s == Status::spec_of_raw(raw),
    {
        if raw.code == STATUS_OK {
            self.running = true;
            Ok(())
        } else {
            Err(Status::from_raw(raw))
        }
    }

    /// Stops recording.  Always succeeds; recording can be started
    /// again afterwards.
    pub fn stop(&mut self)
        requires
            old(self).wf(),
            old(self).spec_alive(),
        ensures
            final(self).wf(),
            final(self).spec_alive(),
            !final(self).spec_running(),
            final(self).spec_attached() == old(self).spec_attached(),
    {
        self.running = false;
    }

    /// The destroy transition: the handle is gone, the native destroy
    /// call ran once more, and recording no longer runs.
    pub open spec fn close_transition(pre: Recorder, post: Recorder) -> bool {
        &&& !post.spec_alive()
        &&& !post.spec_running()
        &&& post.spec_destroys() == pre.spec_destroys() + 1
        &&& post.spec_attached() == pre.spec_attached()
    }

    /// Destroys the recorder — the drop path, taken in whatever
    /// running state the recorder is in.  After this no operation
    /// accepts the recorder, so the handle is destroyed exactly once.
    pub fn close(&mut self)
        requires
            old(self).wf(),
            old(self).spec_alive(),
        ensures
            final(self).wf(),
            Recorder::close_transition(*old(self), *final(self)),
    {
        self.running = false;
        self.alive = false;
        self.destroys = self.destroys + 1;
    }
}

/// Destroying a live recorder issues the native destroy call exactly
/// once, whatever state recording was in.
pub proof fn lemma_recorder_close_exactly_once(pre: Recorder, post: Recorder)
    requires
        pre.wf(),
        pre.spec_alive(),
        Recorder::close_transition(pre, post),
    ensures
        post.spec_destroys() == 1,
        !post.spec_alive(),
{
}

} // verus!
