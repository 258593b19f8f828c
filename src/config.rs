use vstd::prelude::*;

verus! {

/// Per-phase deadlines of a checkout, in milliseconds. `None` means that the
/// phase may take as long as it takes; a wait of zero means "do not wait".
#[derive(Clone, Copy, Debug, PartialEq, Eq, Structural)]
pub struct Timeouts {
    /// Deadline for getting a slot.
    pub wait: Option<u64>,
    /// Deadline for opening a new session.
    pub create: Option<u64>,
    /// Deadline for recycling an idle session.
    pub recycle: Option<u64>,
}

impl Timeouts {
    /// No deadline for any phase.
    pub fn new() -> (r: Self)
        ensures
            r.wait is None,
            r.create is None,
            r.recycle is None,
    {
        Timeouts { wait: None, create: None, recycle: None }
    }

    pub fn wait(self, timeout_ms: u64) -> (r: Self)
        ensures
            r == (Timeouts { wait: Some(timeout_ms), ..self }),
    {
        Timeouts { wait: Some(timeout_ms), ..self }
    }

    pub fn create(self, timeout_ms: u64) -> (r: Self)
        ensures
            r == (Timeouts { create: Some(timeout_ms), ..self }),
    {
        Timeouts { create: Some(timeout_ms), ..self }
    }

    pub fn recycle(self, timeout_ms: u64) -> (r: Self)
        ensures
            r == (Timeouts { recycle: Some(timeout_ms), ..self }),
    {
        Timeouts { recycle: Some(timeout_ms), ..self }
    }

    /// A wait deadline of exactly zero asks for a non-blocking acquisition.
    pub open spec fn spec_is_non_blocking(self) -> bool {
        self.wait == Some(0u64)
    }

    pub fn is_non_blocking(&self) -> (r: bool)
        ensures
            r == self.spec_is_non_blocking(),
    {
        match self.wait {
            Some(t) => t == 0,
            None => false,
        }
    }
}

impl Default for Timeouts {
    fn default() -> (r: Self)
        ensures
            r == (Timeouts { wait: None, create: None, recycle: None }),
    {
        Timeouts::new()
    }
}

/// The statements that reset a session's local state before it is reused.
pub const CLEAN_SCRIPT: &'static str = "CLOSE ALL;
                SET SESSION AUTHORIZATION DEFAULT;
                RESET ALL;
                UNLISTEN *;
                SELECT pg_advisory_unlock_all();
                DISCARD TEMP;
                DISCARD SEQUENCES;";

/// How an idle session is checked before it is handed out again.
#[derive(Clone, Copy, Debug, PartialEq, Eq, Structural)]
pub enum RecyclingMethod {
    /// Assume the session is still usable.
    Fast,
    /// Issue a trivial query to confirm liveness.
    Verified,
    /// Reset all session-local state.
    Clean,
}

impl RecyclingMethod {
    /// The statement to run when recycling, if any.
    pub fn query(self) -> (r: Option<&'static str>)
        ensures
            self == RecyclingMethod::Fast ==> r is None,
            self == RecyclingMethod::Verified ==> r is Some && r->0@ == ""@,
            self == RecyclingMethod::Clean ==> r is Some && r->0@ == CLEAN_SCRIPT@,
    {
        match self {
            RecyclingMethod::Fast => None,
            RecyclingMethod::Verified => Some(""),
            RecyclingMethod::Clean => Some(CLEAN_SCRIPT),
        }
    }
}

impl Default for RecyclingMethod {
    fn default() -> (r: Self)
        ensures
            r == RecyclingMethod::Fast,
    {
        RecyclingMethod::Fast
    }
}

/// The pool's settings. Connection parameters of the database itself are
/// held by whoever opens the sessions.
#[derive(Clone, Copy, Debug, PartialEq, Eq, Structural)]
pub struct PoolConfig {
    pub timeouts: Timeouts,
    pub readonly: bool,
    pub max_connections: usize,
    pub max_retries: usize,
    pub channel_size: usize,
    pub recycling_method: RecyclingMethod,
}

/// Slots per unit of available parallelism.
pub const SLOTS_PER_CORE: usize = 4;

/// Slots when the available parallelism is unknown.
pub const FALLBACK_MAX_CONNECTIONS: usize = 8;

impl PoolConfig {
    /// Default settings; `available_parallelism` is what the host reports,
    /// if it reports anything.
    pub fn new(available_parallelism: Option<usize>) -> (r: Self)
        requires
            available_parallelism matches Some(n) ==> n <= usize::MAX / 4,
        ensures
            r.timeouts == (Timeouts { wait: None, create: None, recycle: None }),
            !r.readonly,
            r.max_connections == match available_parallelism {
                Some(n) => n * 4,
                None => 8,
            },
            r.max_retries == 6,
            r.channel_size == 64,
            r.recycling_method == RecyclingMethod::Fast,
    {
        PoolConfig {
            timeouts: Timeouts::new(),
            readonly: false,
            max_connections: match available_parallelism {
                Some(n) => n * SLOTS_PER_CORE,
                None => FALLBACK_MAX_CONNECTIONS,
            },
            max_retries: 6,
            channel_size: 64,
            recycling_method: RecyclingMethod::Fast,
        }
    }

    pub fn readonly(self) -> (r: Self)
        ensures
            r == (PoolConfig { readonly: true, ..self }),
    {
        PoolConfig { readonly: true, ..self }
    }

    pub fn max_connections(self, size: usize) -> (r: Self)
        ensures
            r == (PoolConfig { max_connections: size, ..self }),
    {
        PoolConfig { max_connections: size, ..self }
    }

    pub fn channel_size(self, size: usize) -> (r: Self)
        ensures
            r == (PoolConfig { channel_size: size, ..self }),
    {
        PoolConfig { channel_size: size, ..self }
    }

    pub fn max_retries(self, retries: usize) -> (r: Self)
        ensures
            r == (PoolConfig { max_retries: retries, ..self }),
    {
        PoolConfig { max_retries: retries, ..self }
    }
}

/// How a session's access mode reads in diagnostics.
pub fn ro(readonly: bool) -> (r: &'static str)
    ensures
        readonly ==> r@ == "read-only"@,
        !readonly ==> r@ == "writable"@,
{
    if readonly {
        "read-only"
    } else {
        "writable"
    }
}

} // verus!
