//! Connection health across guarded operations.
//!
//! Every operation that performs native I/O runs under a guard. A
//! connection known to be dead is refused before any I/O; an operation that
//! completes (successfully or with an error) leaves the health as the driver
//! reported it; an operation abandoned while its I/O is pending (a dropped
//! future or stream) marks the connection dead, because the native parser
//! or writer state can no longer be trusted. Nothing ever revives a dead
//! connection.

use vstd::prelude::*;

use mssql_tds::error::Error as TdsError;

use crate::error::Error;
use crate::prepared::PreparedStatement;

verus! {

/// mssql-tds's `Error::ConnectionClosed` holding `message`. The error value
/// is opaque to the contracts: nothing is stated of it.
#[verifier::external_body]
pub(crate) fn tds_connection_closed(message: String) -> TdsError {
    TdsError::ConnectionClosed(message)
}

/// Fails with the driver's `ConnectionClosed` error when the connection is
/// known to be dead; no I/O is attempted.
pub fn ensure_usable(dead: bool) -> (r: Result<(), Error>)
    ensures
        r is Ok <==> !dead,
        r matches Err(e) ==> e is Tds,
{
    if dead {
        return Err(Error::Tds(tds_connection_closed(String::from_str(
            "Connection is known dead; discard this Client and reconnect",
        ))));
    }
    Ok(())
}

/// The guard of one operation: armed from its start until it completes.
#[derive(Debug)]
pub struct OperationGuard {
    armed: bool,
}

impl OperationGuard {
    /// Whether the operation has started and not completed.
    pub closed spec fn is_armed(&self) -> bool {
        self.armed
    }

    /// The guard of an operation that has just started.
    pub closed spec fn started() -> OperationGuard {
        OperationGuard { armed: true }
    }

    /// The guard after the operation completed.
    pub closed spec fn completed(self) -> OperationGuard {
        OperationGuard { armed: false }
    }

    /// The health that dropping the guard leaves, given the health at that
    /// moment.
    pub closed spec fn drop_health(self, dead: bool) -> bool {
        dead || self.armed
    }

    /// Starts an operation on a connection whose health is `dead`: refused
    /// when dead, armed otherwise.
    pub fn begin(dead: bool) -> (r: Result<OperationGuard, Error>)
        ensures
            r is Ok <==> !dead,
            r matches Ok(g) ==> g == OperationGuard::started() && g.is_armed(),
            r matches Err(e) ==> e is Tds,
    {
        ensure_usable(dead)?;
        Ok(OperationGuard { armed: true })
    }

    /// Records that the operation completed, with a value or an error.
    pub fn complete(&mut self)
        ensures
            *final(self) == old(self).completed(),
            !final(self).is_armed(),
    {
        self.armed = false;
    }

    /// Whether dropping the guard now must mark the connection dead: only
    /// while the operation is still armed.
    pub fn marks_dead_on_drop(&self) -> (r: bool)
        ensures
            r == self.is_armed(),
    {
        self.armed
    }
}

/// The health that the drop of a guard leaves, given the health at that
/// moment.
pub fn health_on_drop(guard: &OperationGuard, dead: bool) -> (r: bool)
    ensures
        r == guard.drop_health(dead),
        r == (dead || guard.is_armed()),
{
    dead || guard.marks_dead_on_drop()
}

/// An operation that started ([`OperationGuard::begin`]) and is dropped
/// before it completes leaves the connection dead, whatever its health at
/// that moment; one that completed ([`OperationGuard::complete`]) leaves the
/// connection's health as the driver reported it: dropping it neither
/// marks the connection dead nor revives it ([`health_on_drop`]).
pub proof fn lemma_drop_health(dead: bool)
    ensures
        OperationGuard::started().drop_health(dead),
        OperationGuard::started().completed().drop_health(dead) == dead,
{
}

/// The check before a session reset: a connection known dead cannot be
/// reset.
pub fn ensure_resettable(dead: bool) -> (r: Result<(), Error>)
    ensures
        r is Ok <==> !dead,
        r matches Err(e) ==> e is Tds,
{
    if dead {
        return Err(Error::Tds(tds_connection_closed(String::from_str(
            "cannot reset a connection that is known dead",
        ))));
    }
    Ok(())
}

/// A session reset in progress: the fresh session identity it gives the
/// connection, and the guard that retires the connection unless every step
/// of the reset succeeds.
#[derive(Debug)]
pub struct SessionReset {
    guard: OperationGuard,
    session: u64,
}

impl SessionReset {
    /// Whether the reset has begun and not completed every step.
    pub closed spec fn is_armed(&self) -> bool {
        self.guard.is_armed()
    }

    /// The session identity that the reset gives the connection.
    pub closed spec fn spec_session(&self) -> u64 {
        self.session
    }

    /// A reset that has just started, giving the session identity `fresh`.
    pub closed spec fn started(fresh: u64) -> SessionReset {
        SessionReset { guard: OperationGuard::started(), session: fresh }
    }

    /// The reset after every step succeeded.
    pub closed spec fn completed(self) -> SessionReset {
        SessionReset { guard: self.guard.completed(), session: self.session }
    }

    /// The health that dropping the reset leaves, given the health at that
    /// moment.
    pub closed spec fn drop_health(self, dead: bool) -> bool {
        self.guard.drop_health(dead)
    }

    /// Starts a reset of a connection whose health is `dead`, giving it the
    /// fresh session identity `fresh`. A connection known dead is refused
    /// with the driver's `ConnectionClosed` error before anything is sent.
    pub fn begin(dead: bool, fresh: u64) -> (r: Result<SessionReset, Error>)
        ensures
            r is Ok <==> !dead,
            r matches Ok(s) ==> s == SessionReset::started(fresh) && s.is_armed() && s.spec_session() == fresh,
            r matches Err(e) ==> e is Tds,
    {
        ensure_resettable(dead)?;
        Ok(SessionReset { guard: OperationGuard { armed: true }, session: fresh })
    }

    /// Records that every step of the reset succeeded.
    pub fn complete(&mut self)
        ensures
            *final(self) == old(self).completed(),
            !final(self).is_armed(),
            final(self).spec_session() == old(self).spec_session(),
    {
        self.guard.complete();
    }

    /// The session identity that the reset gives the connection.
    pub fn session(&self) -> (r: u64)
        ensures
            r == self.spec_session(),
    {
        self.session
    }
}

/// The health that the drop of a session reset leaves, given the health at
/// that moment: dead unless every step of the reset succeeded.
pub fn health_after_reset(reset: &SessionReset, dead: bool) -> (r: bool)
    ensures
        r == reset.drop_health(dead),
        r == (dead || reset.is_armed()),
{
    health_on_drop(&reset.guard, dead)
}

/// What a session reset does to a connection: a connection known dead is
/// refused before anything is sent ([`SessionReset::begin`]); a reset that
/// started and fails at any step, or is dropped while a step is pending,
/// leaves the connection dead whatever its health then, while one whose
/// every step succeeded ([`SessionReset::complete`]) leaves the driver's
/// report ([`health_after_reset`]); and either way the connection is in the
/// session the reset started, so a statement prepared in an earlier
/// session (whose identity differs from the fresh one) is refused there
/// ([`PreparedStatement::validate_session`]).
pub proof fn lemma_session_reset(fresh: u64, dead: bool, stmt: PreparedStatement)
    requires
        stmt.spec_session() != fresh,
    ensures
        SessionReset::started(fresh).drop_health(dead),
        SessionReset::started(fresh).completed().drop_health(dead) == dead,
        !stmt.valid_in(SessionReset::started(fresh).spec_session()),
        !stmt.valid_in(SessionReset::started(fresh).completed().spec_session()),
{
}

} // verus!
