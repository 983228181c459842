//! The session lifecycle: Disconnected, Connected, SessionOpen, and an
//! absorbing Error state, with guarded transitions.
//!
//! The machine only decides; the transport work between a request and its
//! outcome (connecting, the OpenSession and CloseSession transactions)
//! happens outside, and its result is reported back through the `*_result`
//! transitions.

use vstd::prelude::*;

use crate::error::Error;

verus! {

/// The connection state of one camera link.
#[derive(Debug, Clone, Copy, PartialEq, Eq, Structural)]
pub enum CameraStatus {
    /// No device link.
    Disconnected,
    /// A device link exists, but no protocol session is open.
    Connected,
    /// A protocol session is open; commands may be issued.
    SessionOpen,
    /// An unrecoverable transport or protocol failure was reported.
    Error,
}

/// The session lifecycle state machine.
pub struct SessionState {
    /// The current lifecycle state.
    pub status: CameraStatus,
}

impl SessionState {
    /// A fresh machine starts disconnected.
    pub fn new() -> (r: SessionState)
        ensures
            r.status == CameraStatus::Disconnected,
    {
        SessionState { status: CameraStatus::Disconnected }
    }

    /// Starting a connection attempt first drops whatever link existed.
    pub fn begin_connect(&mut self)
        ensures
            final(self).status == CameraStatus::Disconnected,
    {
        self.status = CameraStatus::Disconnected;
    }

    /// A device was found and its transport came up.
    pub fn connect_succeeded(&mut self)
        ensures
            final(self).status == CameraStatus::Connected,
    {
        self.status = CameraStatus::Connected;
    }

    /// The connection attempt failed: with no matching device the machine
    /// stays disconnected; a device that was found but could not be opened
    /// leaves the machine in the error state.
    pub fn connect_failed(&mut self, device_found: bool)
        ensures
            final(self).status == (if device_found {
                CameraStatus::Error
            } else {
                CameraStatus::Disconnected
            }),
    {
        if device_found {
            self.status = CameraStatus::Error;
        } else {
            self.status = CameraStatus::Disconnected;
        }
    }

    /// Opening a session is allowed exactly in the Connected state; outside
    /// it the request is rejected with a state-mismatch error.
    pub fn request_open_session(&self) -> (r: Result<(), Error>)
        ensures
            r is Ok <==> self.status == CameraStatus::Connected,
            r is Err ==> r->Err_0 is USB,
    {
        if self.status == CameraStatus::Connected {
            Ok(())
        } else {
            Err(Error::USB("camera not connected, or a session is already open".to_owned()))
        }
    }

    /// How the OpenSession transaction went: success opens the session,
    /// failure is unrecoverable.
    pub fn open_session_result(&mut self, ok: bool)
        requires
            old(self).status == CameraStatus::Connected,
        ensures
            final(self).status == (if ok {
                CameraStatus::SessionOpen
            } else {
                CameraStatus::Error
            }),
    {
        if ok {
            self.status = CameraStatus::SessionOpen;
        } else {
            self.status = CameraStatus::Error;
        }
    }

    /// Closing a session is allowed exactly in the SessionOpen state;
    /// outside it the request is rejected with a state-mismatch error.
    pub fn request_close_session(&self) -> (r: Result<(), Error>)
        ensures
            r is Ok <==> self.status == CameraStatus::SessionOpen,
            r is Err ==> r->Err_0 is USB,
    {
        if self.status == CameraStatus::SessionOpen {
            Ok(())
        } else {
            Err(Error::USB("no active session".to_owned()))
        }
    }

    /// However the CloseSession transaction went, the machine downgrades to
    /// Connected, so that opening a session can be retried.
    pub fn close_session_result(&mut self, ok: bool)
        requires
            old(self).status == CameraStatus::SessionOpen,
        ensures
            final(self).status == CameraStatus::Connected,
    {
        let _ = ok;
        self.status = CameraStatus::Connected;
    }

    /// Dropping the device link leads to Disconnected from every state.
    pub fn disconnected(&mut self)
        ensures
            final(self).status == CameraStatus::Disconnected,
    {
        self.status = CameraStatus::Disconnected;
    }

    /// An unrecoverable transport or protocol failure, from any state.
    pub fn fatal_error(&mut self)
        ensures
            final(self).status == CameraStatus::Error,
    {
        self.status = CameraStatus::Error;
    }

    /// The current lifecycle state.
    pub fn status(&self) -> (r: CameraStatus)
        ensures
            r == self.status,
    {
        self.status
    }

    /// Whether a device link exists (with or without an open session).
    pub fn is_connected(&self) -> (r: bool)
        ensures
            r == (self.status == CameraStatus::Connected || self.status
                == CameraStatus::SessionOpen),
    {
        self.status == CameraStatus::Connected || self.status == CameraStatus::SessionOpen
    }

    /// Whether a protocol session is open.
    pub fn has_session(&self) -> (r: bool)
        ensures
            r == (self.status == CameraStatus::SessionOpen),
    {
        self.status == CameraStatus::SessionOpen
    }
}

} // verus!
