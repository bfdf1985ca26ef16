//! Connection-pool settings: how a pooled connection is prepared for its next
//! borrower. The pools themselves run the facade's connections.

use vstd::prelude::*;

use crate::config::Config;

verus! {

/// How an existing connection is prepared for its next borrower.
#[derive(Debug, Clone, Copy, PartialEq, Eq, Structural)]
pub enum RecyclingMethod {
    /// Reset session state with the native TDS reset flag, restore
    /// `READ COMMITTED` isolation, and validate the server's response
    /// (the default). Invalidates prepared statements.
    Reset,
    /// Check cached connection health without I/O or resetting session state.
    Ping,
}

impl Default for RecyclingMethod {
    fn default() -> (r: Self)
        ensures
            r == RecyclingMethod::Reset,
    {
        RecyclingMethod::Reset
    }
}

/// What recycling does with a pooled connection.
#[derive(Debug, Clone, Copy, PartialEq, Eq, Structural)]
pub enum RecycleAction {
    /// The connection is known dead: the pool discards it.
    Reject,
    /// Reset the session before reuse.
    Reset,
    /// Check the cached health only.
    Ping,
    /// A live connection that still has unconsumed results of a request,
    /// under [`RecyclingMethod::Ping`]: the pool refuses it with
    /// [`pending_results_message`], without I/O and leaving the results
    /// pending.
    RejectPending,
}

/// Why a live connection with pending results is not handed out under
/// [`RecyclingMethod::Ping`].
pub open spec fn pending_results_text() -> Seq<char> {
    "connection has pending results; drain them with close_query before returning it to the pool"@
}

/// The message of a connection refused for its pending results.
pub fn pending_results_message() -> (r: String)
    ensures
        r@ == pending_results_text(),
{
    String::from_str("connection has pending results; drain them with close_query before returning it to the pool")
}

/// Creates and recycles connections with the provided [`Config`].
/// Recycling occurs on checkout, not when a connection is returned.
#[derive(Debug, Clone)]
pub struct TdsManager {
    pub(crate) config: Config,
    pub(crate) recycling_method: RecyclingMethod,
}

impl TdsManager {
    /// The settings that new connections are made with.
    pub closed spec fn spec_config(&self) -> Config {
        self.config
    }

    /// The recycling policy.
    pub closed spec fn spec_recycling_method(&self) -> RecyclingMethod {
        self.recycling_method
    }

    /// Create a manager using [`RecyclingMethod::Reset`].
    pub fn new(config: Config) -> (r: Self)
        ensures
            r.spec_config() == config,
            r.spec_recycling_method() == RecyclingMethod::Reset,
    {
        Self { config, recycling_method: RecyclingMethod::default() }
    }

    /// Choose how reused connections are prepared for checkout.
    pub fn with_recycling_method(self, method: RecyclingMethod) -> (r: Self)
        ensures
            r.spec_config() == self.spec_config(),
            r.spec_recycling_method() == method,
    {
        let mut m = self;
        m.recycling_method = method;
        m
    }

    /// The configured recycling policy.
    pub fn recycling_method(&self) -> (r: RecyclingMethod)
        ensures
            r == self.spec_recycling_method(),
    {
        self.recycling_method
    }

    /// The settings that new connections are made with.
    pub fn config(&self) -> (r: &Config)
        ensures
            *r == self.spec_config(),
    {
        &self.config
    }
}

impl TdsManager {
    /// The recycling step for a pooled connection whose health is `dead`
    /// and which has unconsumed results of a request when `pending`: a dead
    /// connection is rejected before any reset or ping; a live one is reset
    /// (the reset drains pending results) or, under `Ping`, checked by its
    /// cached health only when it has no pending results and refused
    /// without I/O when it has some.
    pub fn recycle_action(&self, dead: bool, pending: bool) -> (r: RecycleAction)
        ensures
            dead ==> r == RecycleAction::Reject,
            !dead && self.spec_recycling_method() == RecyclingMethod::Reset ==> r == RecycleAction::Reset,
            !dead && self.spec_recycling_method() == RecyclingMethod::Ping && !pending ==> r == RecycleAction::Ping,
            !dead && self.spec_recycling_method() == RecyclingMethod::Ping && pending ==> r == RecycleAction::RejectPending,
    {
        if dead {
            return RecycleAction::Reject;
        }
        match self.recycling_method {
            RecyclingMethod::Reset => RecycleAction::Reset,
            RecyclingMethod::Ping => if pending {
                RecycleAction::RejectPending
            } else {
                RecycleAction::Ping
            },
        }
    }
}

} // verus!
