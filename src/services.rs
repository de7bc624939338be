//! Services that manage long-lived connections on behalf of a consumer.
pub mod sse;
