use vstd::prelude::*;

verus! {

/// Progress of one authorization flow, shared between the callback
/// listener and the coordinator behind one lock.
///
/// The listener writes `server_running`, `user_token` and `is_closed`; the
/// coordinator writes `can_close`.
#[derive(Debug)]
pub struct AuthState {
    /// The authorization code caught by the listener; empty while unset.
    pub user_token: String,
    pub server_running: bool,
    pub can_close: bool,
    pub is_closed: bool,
}

impl AuthState {
    /// The listener closes only after it was asked to.
    pub open spec fn wf(&self) -> bool {
        self.is_closed ==> self.can_close
    }

    /// `b` is a later state than `a`: no flag that was set is cleared.
    pub open spec fn advances(a: AuthState, b: AuthState) -> bool {
        &&& a.server_running ==> b.server_running
        &&& a.can_close ==> b.can_close
        &&& a.is_closed ==> b.is_closed
    }

    /// Nothing has happened yet.
    pub open spec fn is_initial(&self) -> bool {
        &&& self.user_token@.len() == 0
        &&& !self.server_running
        &&& !self.can_close
        &&& !self.is_closed
    }

    pub fn new() -> (r: AuthState)
        ensures
            r.is_initial(),
            r.wf(),
    {
        AuthState {
            user_token: String::new(),
            server_running: false,
            can_close: false,
            is_closed: false,
        }
    }

    /// Whether a code has been caught.
    pub fn has_code(&self) -> (r: bool)
        ensures
            r == (self.user_token@.len() > 0),
    {
        !self.user_token.as_str().is_empty()
    }

    /// The listener is bound and accepting requests.
    pub fn mark_server_running(&mut self)
        requires
            old(self).wf(),
        ensures
            final(self).wf(),
            final(self).server_running,
            final(self).user_token == old(self).user_token,
            final(self).can_close == old(self).can_close,
            final(self).is_closed == old(self).is_closed,
            AuthState::advances(*old(self), *final(self)),
    {
        self.server_running = true;
    }

    /// The coordinator lets the listener stop.
    pub fn request_close(&mut self)
        requires
            old(self).wf(),
        ensures
            final(self).wf(),
            final(self).can_close,
            final(self).user_token == old(self).user_token,
            final(self).server_running == old(self).server_running,
            final(self).is_closed == old(self).is_closed,
            AuthState::advances(*old(self), *final(self)),
    {
        self.can_close = true;
    }

    /// What the listener does after each accept cycle: once closing was
    /// requested it records that it has stopped and returns `true`.
    pub fn finish_cycle(&mut self) -> (stop: bool)
        requires
            old(self).wf(),
        ensures
            final(self).wf(),
            stop == old(self).can_close,
            final(self).is_closed == (old(self).is_closed || old(self).can_close),
            final(self).user_token == old(self).user_token,
            final(self).server_running == old(self).server_running,
            final(self).can_close == old(self).can_close,
            AuthState::advances(*old(self), *final(self)),
    {
        if self.can_close {
            self.is_closed = true;
            true
        } else {
            false
        }
    }
}

impl Default for AuthState {
    fn default() -> (r: AuthState)
        ensures
            r.is_initial(),
            r.wf(),
    {
        AuthState::new()
    }
}

} // verus!
