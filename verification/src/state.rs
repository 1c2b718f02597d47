//! The capture state of the process: whether capture is active, and the
//! current session.

use crate::capture::packet::{PacketCapture, SessionPhase, SessionView};
use vstd::prelude::*;

verus! {

/// The value of the capture state.
#[verifier::ext_equal]
pub struct CaptureStateView {
    pub active: bool,
    pub session: Option<SessionView>,
}

impl CaptureStateView {
    /// No capture was ever started.
    pub open spec fn idle() -> CaptureStateView {
        CaptureStateView { active: false, session: None }
    }

    /// Whether the current session holds an open handle.
    pub open spec fn has_open_session(self) -> bool {
        self.session matches Some(s) && s.phase is Open
    }

    /// Capture is active exactly while the current session is open, and the
    /// session itself is sound.
    pub open spec fn wf(self) -> bool {
        &&& self.active <==> self.has_open_session()
        &&& self.session matches Some(s) ==> s.wf()
    }

    /// The name of the device that is being captured from.
    pub open spec fn current_device(self) -> Option<Seq<char>> {
        match self.session {
            Some(s) => if s.phase is Open {
                s.device
            } else {
                None
            },
            None => None,
        }
    }

    /// The state after capture was stopped: inactive, the session closed.
    pub open spec fn stopped(self) -> CaptureStateView {
        CaptureStateView {
            active: false,
            session: match self.session {
                Some(s) => Some(s.stopped()),
                None => None,
            },
        }
    }

    /// The state in which a new session captures from the device `name`.
    pub open spec fn capturing(name: Seq<char>) -> CaptureStateView {
        CaptureStateView {
            active: true,
            session: Some(
                SessionView { phase: SessionPhase::Open, device: Some(name), running: true },
            ),
        }
    }

    /// The state after the driver tried to open a handle on the device `name`
    /// for a new session. A failure leaves no capture active, whatever was
    /// there before.
    pub open spec fn opened(self, name: Seq<char>, handle_opened: bool) -> CaptureStateView {
        if handle_opened {
            CaptureStateView::capturing(name)
        } else {
            self.stopped()
        }
    }
}

/// The capture state of the process. It is the one place that the operations
/// on capture consult, and it is changed only under exclusive access.
#[derive(Debug)]
pub struct AppState {
    pub capture_active: bool,
    pub capture: Option<PacketCapture>,
}

impl View for AppState {
    type V = CaptureStateView;

    open spec fn view(&self) -> CaptureStateView {
        CaptureStateView {
            active: self.capture_active,
            session: match self.capture {
                Some(session) => Some(session@),
                None => None,
            },
        }
    }
}

impl Default for AppState {
    fn default() -> (state: Self)
        ensures
            state@ == CaptureStateView::idle(),
            state@.wf(),
    {
        AppState { capture_active: false, capture: None }
    }
}

/// Stopping twice is stopping once: after a stop capture is inactive, no
/// handle is left to release, and a second stop changes nothing.
pub proof fn lemma_stop_is_idempotent(s: CaptureStateView)
    ensures
        s.stopped().stopped() == s.stopped(),
        !s.stopped().active,
        !s.stopped().has_open_session(),
        s.stopped().current_device() is None,
        s.stopped().wf(),
{
}

/// Stopping while nothing is active changes nothing.
pub proof fn lemma_stop_while_inactive(s: CaptureStateView)
    requires
        s.wf(),
        !s.active,
    ensures
        s.stopped() == s,
{
}

/// While capture is active there is an open, running session bound to a
/// device; while it is inactive no device is current.
pub proof fn lemma_active_means_open(s: CaptureStateView)
    requires
        s.wf(),
    ensures
        s.active <==> s.has_open_session(),
        s.active <==> s.current_device() is Some,
{
}

/// A switch that succeeds ends with capture active on the new device and on
/// nothing else, whatever was captured from before.
pub proof fn lemma_switch_succeeds(s: CaptureStateView, name: Seq<char>)
    ensures
        s.stopped().opened(name, true) == CaptureStateView::capturing(name),
        s.stopped().opened(name, true).active,
        s.stopped().opened(name, true).current_device() == Some(name),
        s.stopped().opened(name, true).wf(),
{
}

/// A switch whose handle cannot be opened ends with no capture active: the
/// session that was stopped for it is not restored.
pub proof fn lemma_switch_failure_stops_capture(s: CaptureStateView, name: Seq<char>)
    ensures
        s.stopped().opened(name, false) == s.stopped(),
        !s.stopped().opened(name, false).active,
        s.stopped().opened(name, false).current_device() is None,
{
}

} // verus!
