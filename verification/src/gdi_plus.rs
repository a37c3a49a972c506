use vstd::prelude::*;

verus! {

/// A running GDI+ session, which the program starts once.
pub struct GdiPlus;

/// Why GDI+ could not be started.
#[derive(Clone, Copy, Debug, PartialEq, Eq, Structural)]
pub enum GdiPlusError {
    /// A session is already running.
    AlreadyStarted,
    /// The startup call failed with the given status.
    StartupFailed(i32),
}

/// The token of the running GDI+ session, if one runs.
pub struct GdiPlusSession {
    token: Option<usize>,
}

impl View for GdiPlusSession {
    type V = Option<usize>;

    closed spec fn view(&self) -> Option<usize> {
        self.token
    }
}

/// Succeeds exactly when a GDI+ status is `Ok`, 0.
pub fn ensure_gdiplus_ok(status: i32) -> (result: Result<(), GdiPlusError>)
    ensures
        result == (if status == 0 {
            Ok::<(), GdiPlusError>(())
        } else {
            Err(GdiPlusError::StartupFailed(status))
        }),
{
    if status == 0 {
        Ok(())
    } else {
        Err(GdiPlusError::StartupFailed(status))
    }
}

impl GdiPlusSession {
    /// No session runs.
    pub fn new() -> (session: Self)
        ensures
            session@ is None,
    {
        GdiPlusSession { token: None }
    }

    /// Whether a session may be started: none runs yet.
    pub fn can_start(&self) -> (can: Result<(), GdiPlusError>)
        ensures
            can == (if self@ is None {
                Ok::<(), GdiPlusError>(())
            } else {
                Err(GdiPlusError::AlreadyStarted)
            }),
    {
        if self.token.is_some() {
            Err(GdiPlusError::AlreadyStarted)
        } else {
            Ok(())
        }
    }

    /// Records the outcome of the startup call: on status 0 the token is
    /// kept and the session runs; otherwise nothing changes.
    pub fn record_startup(&mut self, status: i32, token: usize) -> (result: Result<GdiPlus, GdiPlusError>)
        ensures
            status == 0 ==> result is Ok && final(self)@ == Some(token),
            status != 0 ==> result == Err::<GdiPlus, GdiPlusError>(GdiPlusError::StartupFailed(status))
                && final(self)@ == old(self)@,
    {
        match ensure_gdiplus_ok(status) {
            Ok(()) => {
                self.token = Some(token);
                Ok(GdiPlus)
            },
            Err(error) => Err(error),
        }
    }

    /// Ends the session: the token to shut down, if a session ran; none runs
    /// afterwards, so a session is shut down once.
    pub fn shutdown(&mut self) -> (token: Option<usize>)
        ensures
            token == old(self)@,
            final(self)@ is None,
    {
        self.token.take()
    }
}

} // verus!
