use vstd::prelude::*;

verus! {

/// The timeout, in milliseconds, used wherever none is configured.
pub const DEFAULT_TIMEOUT_MS: u64 = 5000;

/// Timing of one backend connection. Both values are in milliseconds.
#[derive(Clone, Copy, Debug, PartialEq, Eq, Structural)]
pub struct SocketOptions {
    /// How long a call waits for its reply.
    pub timeout: u64,
    /// How long the supervisor sleeps between two connection attempts.
    pub reconnection_timeout: u64,
}

/// Collects the optional settings of a [`SocketOptions`].
#[derive(Clone, Copy, Debug, PartialEq, Eq, Structural)]
pub struct SocketOptionsBuilder {
    pub timeout: Option<u64>,
    pub reconnection_timeout: Option<u64>,
}

/// The value a setting takes: the configured one, or the default.
pub open spec fn or_default(setting: Option<u64>) -> u64 {
    match setting {
        Some(value) => value,
        None => DEFAULT_TIMEOUT_MS,
    }
}

impl SocketOptions {
    /// A builder with nothing configured.
    pub fn builder() -> (builder: SocketOptionsBuilder)
        ensures
            builder.timeout.is_none(),
            builder.reconnection_timeout.is_none(),
    {
        SocketOptionsBuilder { timeout: None, reconnection_timeout: None }
    }
}

impl SocketOptionsBuilder {
    /// Sets the per-call timeout; `None` clears it.
    pub fn with_timeout(self, timeout: Option<u64>) -> (builder: SocketOptionsBuilder)
        ensures
            builder.timeout == timeout,
            builder.reconnection_timeout == self.reconnection_timeout,
    {
        SocketOptionsBuilder { timeout, reconnection_timeout: self.reconnection_timeout }
    }

    /// Sets the pause between connection attempts; `None` clears it.
    pub fn with_reconnection_timeout(self, reconnection_timeout: Option<u64>) -> (builder:
        SocketOptionsBuilder)
        ensures
            builder.timeout == self.timeout,
            builder.reconnection_timeout == reconnection_timeout,
    {
        SocketOptionsBuilder { timeout: self.timeout, reconnection_timeout }
    }

    /// The options: each configured value as given, the default for the rest.
    pub fn build(self) -> (options: SocketOptions)
        ensures
            options.timeout == or_default(self.timeout),
            options.reconnection_timeout == or_default(self.reconnection_timeout),
    {
        let timeout: u64 = match self.timeout {
            Some(value) => value,
            None => DEFAULT_TIMEOUT_MS,
        };
        let reconnection_timeout: u64 = match self.reconnection_timeout {
            Some(value) => value,
            None => DEFAULT_TIMEOUT_MS,
        };
        SocketOptions { timeout, reconnection_timeout }
    }
}

} // verus!
