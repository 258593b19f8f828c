//! A connection pool for a relational database client: slot admission,
//! idle-session reuse under a replaceable configuration, per-session
//! statement caches, connect-with-retry and push-message forwarding.
//!
//! Everything that decides lives here and is verified; the asynchronous
//! runtime, the sockets and the wire protocol are driven from outside,
//! which hands the outcome of each step back to these state machines.

pub mod cache;
pub mod config;
pub mod connect;
pub mod error;
pub mod key;
pub mod notify;
pub mod pool;
pub mod prepare;
pub mod readonly;
pub mod util;

pub use cache::{StatementCache, StatementCaches};
pub use config::{ro, PoolConfig, RecyclingMethod, Timeouts, CLEAN_SCRIPT};
pub use connect::{ConnectAction, ConnectOutcome, ConnectRetry, BACKOFF_MS};
pub use error::Error;
pub use key::{CacheKeyModel, StatementCacheKey, StatementCacheKeyedKey, StaticStatementCacheKey};
pub use notify::{on_event, on_send, ExitReason, PumpAction, PumpEvent, SendOutcome, SEND_DEADLINE_MS};
pub use pool::{
    drop_action, recycle_plan, recycle_result, wait_mode, DropAction, Event, Idle, Object, Pool, RecyclePlan,
    State, WaitMode,
};
pub use prepare::{lookup_key, plan_prepare, storage_key, PreparePlan};
pub use readonly::{check_readonly, readonly_verdict, WRITE_PATTERNS};
pub use util::SqlIterator;
