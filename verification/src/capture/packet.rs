//! One capture session: its life from unopened to open to closed, and the
//! decisions of its receive loop.

use crate::capture::device::Device;
use crate::error::CaptureError;
use vstd::prelude::*;

verus! {

/// A handle is opened in promiscuous mode.
pub const PROMISCUOUS: bool = true;

/// The most bytes that are kept of one frame.
pub const SNAPLEN: i32 = 65535;

/// The longest that one poll waits for a frame, in milliseconds.
pub const POLL_TIMEOUT_MS: i32 = 1000;

/// Where a session stands. A session only moves forward: from `Unopened` to
/// `Open`, from `Open` to `Closed`.
#[derive(Clone, Copy, Debug, PartialEq, Eq, Structural)]
pub enum SessionPhase {
    Unopened,
    Open,
    Closed,
}

/// What the driver of the receive loop reports.
#[derive(Clone, Copy, Debug, PartialEq, Eq, Structural)]
pub enum PollEvent {
    /// The loop is entered; nothing was polled yet.
    Entered,
    /// A poll gave a frame of this many bytes.
    Frame(usize),
    /// A poll ended with no frame because its wait ran out.
    TimedOut,
    /// A poll ended with an error other than a timeout.
    Failed,
    /// The handle reports that it has been closed.
    HandleClosed,
    /// The consumer took the frame it was handed (`true`) or refused it.
    Delivered(bool),
}

/// What the driver of the receive loop does next.
#[derive(Clone, Copy, Debug, PartialEq, Eq, Structural)]
pub enum LoopAction {
    /// Poll the handle for the next frame.
    Poll,
    /// Hand this frame length to the consumer.
    Deliver(usize),
    /// Leave the loop; this is no error.
    Finish,
}

/// The value of a session.
#[verifier::ext_equal]
pub struct SessionView {
    pub phase: SessionPhase,
    pub device: Option<Seq<char>>,
    pub running: bool,
}

impl SessionView {
    pub open spec fn unopened() -> SessionView {
        SessionView { phase: SessionPhase::Unopened, device: None, running: false }
    }

    /// A session holds a device exactly while it is open, and runs only while
    /// it is open.
    pub open spec fn wf(self) -> bool {
        &&& self.phase is Open <==> self.device is Some
        &&& self.running ==> self.phase is Open
    }

    /// Whether an attempt to open succeeds: the session must never have been
    /// opened before, and the handle must have been had.
    pub open spec fn opens(self, handle_opened: bool) -> bool {
        self.phase is Unopened && handle_opened
    }

    /// The session after an attempt to open it on the device called `name`.
    pub open spec fn opened(self, name: Seq<char>, handle_opened: bool) -> SessionView {
        if self.opens(handle_opened) {
            SessionView { phase: SessionPhase::Open, device: Some(name), running: true }
        } else {
            self
        }
    }

    /// The session after it was stopped.
    pub open spec fn stopped(self) -> SessionView {
        SessionView {
            phase: if self.phase is Open {
                SessionPhase::Closed
            } else {
                self.phase
            },
            device: None,
            running: false,
        }
    }

    /// Whether the loop goes on to poll.
    pub open spec fn poll_or_finish(self) -> LoopAction {
        if self.running {
            LoopAction::Poll
        } else {
            LoopAction::Finish
        }
    }

    /// The next step of the receive loop after `event`.
    pub open spec fn loop_action(self, event: PollEvent) -> Result<LoopAction, CaptureError> {
        if !(self.phase is Open) {
            if event is Entered {
                Err(CaptureError::NotInitialized)
            } else {
                Ok(LoopAction::Finish)
            }
        } else {
            match event {
                PollEvent::Entered => Ok(self.poll_or_finish()),
                PollEvent::Frame(length) => Ok(LoopAction::Deliver(length)),
                PollEvent::TimedOut => Ok(self.poll_or_finish()),
                PollEvent::Failed => Ok(self.poll_or_finish()),
                PollEvent::HandleClosed => Ok(LoopAction::Finish),
                PollEvent::Delivered(accepted) => if accepted {
                    Ok(self.poll_or_finish())
                } else {
                    Ok(LoopAction::Finish)
                },
            }
        }
    }
}

/// One capture session. The handle itself is the driver's; the session keeps
/// which device it is bound to and whether its loop is to run.
#[derive(Debug)]
pub struct PacketCapture {
    phase: SessionPhase,
    device: Option<String>,
    running: bool,
}

impl View for PacketCapture {
    type V = SessionView;

    closed spec fn view(&self) -> SessionView {
        SessionView {
            phase: self.phase,
            device: match self.device {
                Some(name) => Some(name@),
                None => None,
            },
            running: self.running,
        }
    }
}

impl PacketCapture {
    pub fn new() -> (session: Self)
        ensures
            session@ == SessionView::unopened(),
    {
        PacketCapture { phase: SessionPhase::Unopened, device: None, running: false }
    }

    /// Binds the session to `device`, given whether the driver could open a
    /// handle on it. A session that was opened before is not opened again.
    pub fn start_capture(&mut self, device: &Device, handle_opened: bool) -> (outcome: Result<
        (),
        CaptureError,
    >)
        ensures
            final(self)@ == old(self)@.opened(device.name@, handle_opened),
            outcome == if old(self)@.opens(handle_opened) {
                Ok::<(), CaptureError>(())
            } else {
                Err::<(), CaptureError>(CaptureError::CaptureOpen)
            },
            old(self)@.wf() ==> final(self)@.wf(),
    {
        match self.phase {
            SessionPhase::Unopened => {
                if handle_opened {
                    self.phase = SessionPhase::Open;
                    self.device = Some(device.name.clone());
                    self.running = true;
                    Ok(())
                } else {
                    Err(CaptureError::CaptureOpen)
                }
            },
            _ => Err(CaptureError::CaptureOpen),
        }
    }

    /// Stops the loop and gives up the handle. Returns whether there was a
    /// handle to release; on a session that holds none this changes nothing
    /// that a reader can tell.
    pub fn stop_capture(&mut self) -> (release: bool)
        ensures
            final(self)@ == old(self)@.stopped(),
            release == (old(self)@.phase is Open),
            final(self)@.wf(),
    {
        let release = match self.phase {
            SessionPhase::Open => true,
            _ => false,
        };
        if release {
            self.phase = SessionPhase::Closed;
        }
        self.device = None;
        self.running = false;
        release
    }

    /// Decides the next step of the receive loop from what the driver reports.
    /// The loop polls only while the session is open and running, hands every
    /// frame to the consumer, and ends when the consumer refuses one, when the
    /// handle is closed, or when the session no longer runs. Entering the loop
    /// on a session that is not open is an error.
    pub fn capture_loop(&self, event: PollEvent) -> (action: Result<LoopAction, CaptureError>)
        ensures
            action == self@.loop_action(event),
    {
        let open = match self.phase {
            SessionPhase::Open => true,
            _ => false,
        };
        let resume = if self.running {
            LoopAction::Poll
        } else {
            LoopAction::Finish
        };
        if !open {
            match event {
                PollEvent::Entered => Err(CaptureError::NotInitialized),
                _ => Ok(LoopAction::Finish),
            }
        } else {
            match event {
                PollEvent::Entered => Ok(resume),
                PollEvent::Frame(length) => Ok(LoopAction::Deliver(length)),
                PollEvent::TimedOut => Ok(resume),
                PollEvent::Failed => Ok(resume),
                PollEvent::HandleClosed => Ok(LoopAction::Finish),
                PollEvent::Delivered(accepted) => if accepted {
                    Ok(resume)
                } else {
                    Ok(LoopAction::Finish)
                },
            }
        }
    }

    pub fn phase(&self) -> (phase: SessionPhase)
        ensures
            phase == self@.phase,
    {
        self.phase
    }

    pub fn is_open(&self) -> (open: bool)
        ensures
            open == (self@.phase is Open),
    {
        match self.phase {
            SessionPhase::Open => true,
            _ => false,
        }
    }

    pub fn is_running(&self) -> (running: bool)
        ensures
            running == self@.running,
    {
        self.running
    }

    /// The name of the device that the session is bound to.
    pub fn device_name(&self) -> (name: Option<String>)
        ensures
            match name {
                Some(text) => self@.device == Some(text@),
                None => self@.device is None,
            },
    {
        match &self.device {
            Some(text) => Some(text.clone()),
            None => None,
        }
    }
}

/// A session that does not run, or is not open, is not polled again.
pub proof fn lemma_stopped_session_is_not_polled(s: SessionView, event: PollEvent)
    requires
        !s.running || !(s.phase is Open),
    ensures
        s.loop_action(event) != Ok::<LoopAction, CaptureError>(LoopAction::Poll),
{
}

/// A frame that the consumer refuses ends the loop.
pub proof fn lemma_refused_frame_ends_loop(s: SessionView)
    ensures
        s.loop_action(PollEvent::Delivered(false)) == Ok::<LoopAction, CaptureError>(
            LoopAction::Finish,
        ),
{
}

/// Stopping is idempotent, and a stopped session cannot be opened again.
pub proof fn lemma_closed_is_terminal(s: SessionView, name: Seq<char>, handle_opened: bool)
    requires
        s.phase is Open,
    ensures
        s.stopped().stopped() == s.stopped(),
        s.stopped().phase is Closed,
        s.stopped().opened(name, handle_opened) == s.stopped(),
{
}

} // verus!
