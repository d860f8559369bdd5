//! The queue of a renderer, whichever backend holds it (a local queue, or
//! the renderer's own OpenHome playlist), and the protocol that lets one
//! synchronisation run at a time: a request that arrives while one runs
//! cancels it and asks for another round with the latest items.
use crate::error::ControlPointError;
use crate::model::RendererInfo;
use crate::queue::backend::QueueBackend;
use crate::queue::interne::InternalQueue;
use crate::queue::openhome_queue::OpenHomeQueue;
use crate::soap::{transport_total, SoapCallResult, SoapRequest};
use vstd::prelude::*;

verus! {

/// What a request for a synchronisation led to.
#[derive(Debug, Clone, Copy, PartialEq, Eq, Structural)]
pub enum SyncScheduleOutcome {
    /// A worker was started for it.
    Scheduled,
    /// A synchronisation was running: it is cancelled, and its worker will
    /// run another round.
    AlreadyRunning,
}

/// The flags shared by the requests and the synchronisation worker.
#[derive(Debug, Clone, Copy, PartialEq, Eq, Structural)]
pub struct SyncFlags {
    /// A worker is running.
    pub in_progress: bool,
    /// A request arrived while the worker ran: it runs another round.
    pub pending: bool,
    /// The running round is to stop as soon as it can.
    pub cancel: bool,
}

/// What the worker does once a round has ended.
#[derive(Debug, Clone, Copy, PartialEq, Eq, Structural)]
pub enum WorkerNext {
    /// Fetch the latest items and run another round.
    Refetch,
    /// Stop.
    Finish,
}

impl SyncFlags {
    /// No worker, nothing pending.
    pub fn idle() -> (r: Self)
        ensures
            !r.in_progress && !r.pending && !r.cancel,
    {
        SyncFlags { in_progress: false, pending: false, cancel: false }
    }

    /// A request for a synchronisation: with a worker running, its round is
    /// cancelled and another one asked for; otherwise a worker is to be
    /// started, with nothing pending or cancelled.
    pub fn request(&mut self) -> (r: SyncScheduleOutcome)
        ensures
            (*final(self), r) == spec_request(*old(self)),
    {
        if self.in_progress {
            self.cancel = true;
            self.pending = true;
            SyncScheduleOutcome::AlreadyRunning
        } else {
            self.in_progress = true;
            self.cancel = false;
            self.pending = false;
            SyncScheduleOutcome::Scheduled
        }
    }

    /// The start of a round: what was pending or cancelled is now taken in.
    pub fn begin_round(&mut self)
        ensures
            final(self).in_progress == old(self).in_progress,
            !final(self).pending && !final(self).cancel,
    {
        self.pending = false;
        self.cancel = false;
    }

    /// After a round: another one when a request arrived meanwhile.
    pub fn after_round(&self) -> (r: WorkerNext)
        ensures
            r == (if self.pending {
                WorkerNext::Refetch
            } else {
                WorkerNext::Finish
            }),
    {
        if self.pending {
            WorkerNext::Refetch
        } else {
            WorkerNext::Finish
        }
    }

    /// The worker has stopped.
    pub fn finish(&mut self)
        ensures
            !final(self).in_progress,
            final(self).pending == old(self).pending,
            final(self).cancel == old(self).cancel,
    {
        self.in_progress = false;
    }
}

/// The flags after a request, and what the request led to.
pub open spec fn spec_request(f: SyncFlags) -> (SyncFlags, SyncScheduleOutcome) {
    if f.in_progress {
        (SyncFlags { in_progress: true, pending: true, cancel: true }, SyncScheduleOutcome::AlreadyRunning)
    } else {
        (SyncFlags { in_progress: true, pending: false, cancel: false }, SyncScheduleOutcome::Scheduled)
    }
}

/// One worker at a time: after any request a worker is running, so the next
/// request starts none; it cancels the running round and asks the worker for
/// another one.
pub proof fn law_one_worker_at_a_time(flags: SyncFlags)
    ensures
        spec_request(flags).0.in_progress,
        spec_request(spec_request(flags).0).1 == SyncScheduleOutcome::AlreadyRunning,
        spec_request(spec_request(flags).0).0.pending && spec_request(spec_request(flags).0).0.cancel,
{
}

/// Where the items of a queue live.
#[derive(Debug)]
pub enum MusicQueueBackend {
    /// In the control point.
    Internal(InternalQueue),
    /// In the renderer's OpenHome playlist.
    OpenHome(OpenHomeQueue),
}

/// The queue of a renderer, with the flags of its synchronisation.
#[derive(Debug)]
pub struct MusicQueue {
    pub backend: MusicQueueBackend,
    pub sync: SyncFlags,
}

impl MusicQueue {
    /// The queue a renderer gets: its OpenHome playlist when it has the
    /// Playlist service, a local queue otherwise.
    pub fn from_renderer_info(info: &RendererInfo) -> (r: Result<MusicQueue, ControlPointError>)
        ensures
            r matches Ok(q) ==> (q.backend is OpenHome <==> info.capabilities.has_oh_playlist) && !q.sync.in_progress
                && !q.sync.pending && !q.sync.cancel,
            !info.capabilities.has_oh_playlist ==> r is Ok,
            info.capabilities.has_oh_playlist ==> (r is Ok <==> (info.oh_playlist_control_url is Some
                && info.oh_playlist_service_type is Some)),
    {
        let backend = if info.capabilities.has_oh_playlist {
            match OpenHomeQueue::from_renderer_info(info) {
                Ok(q) => MusicQueueBackend::OpenHome(q),
                Err(e) => {
                    return Err(e);
                },
            }
        } else {
            match InternalQueue::from_renderer_info(info) {
                Ok(q) => MusicQueueBackend::Internal(q),
                Err(e) => {
                    return Err(e);
                },
            }
        };
        Ok(MusicQueue { backend, sync: SyncFlags::idle() })
    }

    /// A queue held in the control point.
    pub fn from_internal(queue: InternalQueue) -> (r: MusicQueue)
        ensures
            r.backend == MusicQueueBackend::Internal(queue),
            !r.sync.in_progress && !r.sync.pending && !r.sync.cancel,
    {
        MusicQueue { backend: MusicQueueBackend::Internal(queue), sync: SyncFlags::idle() }
    }

    /// A queue held in the renderer's OpenHome playlist.
    pub fn from_openhome(queue: OpenHomeQueue) -> (r: MusicQueue)
        ensures
            r.backend == MusicQueueBackend::OpenHome(queue),
            !r.sync.in_progress && !r.sync.pending && !r.sync.cancel,
    {
        MusicQueue { backend: MusicQueueBackend::OpenHome(queue), sync: SyncFlags::idle() }
    }

    /// Whether the items live in the renderer's OpenHome playlist.
    pub fn is_openhome(&self) -> (r: bool)
        ensures
            r == (self.backend is OpenHome),
    {
        match &self.backend {
            MusicQueueBackend::OpenHome(_) => true,
            MusicQueueBackend::Internal(_) => false,
        }
    }

    /// The OpenHome playlist mirror, for an OpenHome queue.
    pub fn as_openhome(&self) -> (r: Option<&OpenHomeQueue>)
        ensures
            match self.backend {
                MusicQueueBackend::OpenHome(q) => r == Some(&q),
                MusicQueueBackend::Internal(_) => r is None,
            },
    {
        match &self.backend {
            MusicQueueBackend::OpenHome(q) => Some(q),
            MusicQueueBackend::Internal(_) => None,
        }
    }

    /// The OpenHome playlist mirror, for an OpenHome queue, to change it.
    pub fn as_openhome_mut(&mut self) -> (r: Option<&mut OpenHomeQueue>)
        ensures
            (r is Some) == (old(self).backend is OpenHome),
            r matches Some(q) ==> old(self).backend == MusicQueueBackend::OpenHome(*q) && final(self).backend
                == MusicQueueBackend::OpenHome(*final(q)) && final(self).sync == old(self).sync,
            r is None ==> *final(self) == *old(self),
    {
        match &mut self.backend {
            MusicQueueBackend::OpenHome(q) => Some(q),
            MusicQueueBackend::Internal(_) => None,
        }
    }

    /// Number of items: from the local queue, or from the renderer's
    /// playlist through the transport.
    pub fn len<F: Fn(SoapRequest) -> SoapCallResult>(&mut self, transport: &F) -> (r: Result<usize, ControlPointError>)
        requires
            transport_total(*transport),
            old(self).backend matches MusicQueueBackend::OpenHome(q) ==> q.wf(),
        ensures
            old(self).backend matches MusicQueueBackend::Internal(q) ==> r matches Ok(n) && n == q.queue_items().len()
                && *final(self) == *old(self),
    {
        match &mut self.backend {
            MusicQueueBackend::Internal(q) => q.len(),
            MusicQueueBackend::OpenHome(q) => q.len(transport),
        }
    }
}

/// A queue backend made for a renderer, and turned into a renderer queue.
pub trait QueueFromRendererInfo: Sized {
    /// The backend for a renderer.
    fn from_renderer_info(info: &RendererInfo) -> Result<Self, ControlPointError>;

    /// The renderer queue holding this backend.
    fn to_backend(self) -> MusicQueue;
}

impl QueueFromRendererInfo for InternalQueue {
    fn from_renderer_info(info: &RendererInfo) -> (r: Result<Self, ControlPointError>) {
        InternalQueue::from_renderer_info(info)
    }

    fn to_backend(self) -> (r: MusicQueue)
        ensures
            r.backend == MusicQueueBackend::Internal(self),
    {
        MusicQueue::from_internal(self)
    }
}

impl QueueFromRendererInfo for OpenHomeQueue {
    fn from_renderer_info(info: &RendererInfo) -> (r: Result<Self, ControlPointError>) {
        OpenHomeQueue::from_renderer_info(info)
    }

    fn to_backend(self) -> (r: MusicQueue)
        ensures
            r.backend == MusicQueueBackend::OpenHome(self),
    {
        MusicQueue::from_openhome(self)
    }
}

impl QueueFromRendererInfo for MusicQueue {
    fn from_renderer_info(info: &RendererInfo) -> (r: Result<Self, ControlPointError>) {
        MusicQueue::from_renderer_info(info)
    }

    fn to_backend(self) -> (r: MusicQueue)
        ensures
            r == self,
    {
        self
    }
}

} // verus!
