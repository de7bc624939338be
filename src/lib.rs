//! Client-side connection tasks for Server-Sent Events streams.
pub mod services;
