//! Safe, verifiable plumbing around a content-sniffing engine.
//!
//! The engine itself is a native, non-reentrant resource reached through a
//! handful of capability calls (open, load, query, close). This crate holds
//! the logic that can be checked: the flag bitset and configuration builders,
//! the encoding of database sources, the error taxonomy, the lease state
//! machine that guards each engine instance, the streaming copy protocol,
//! and the idle-set bookkeeping of the handle pool.

mod config;
mod error;
mod ffi;
mod handle;
mod pool;
mod stream;

pub use crate::config::{
    BufferConfig, Config, ConfigPrivateExt, DefaultConfig, FileConfig, Source, SourceModel,
};
pub use crate::error::{Error, Message};
pub use crate::ffi::Flag;
pub use crate::handle::{
    classify_open, classify_result, description_to_str, finish_create, Handle, ResultType,
};
pub use crate::pool::{buffer_sizes, classify_lock, Pool, Reservoir};
pub use crate::stream::{classify_pipe, copy_step, finish_stream, CopyEvent, CopyStep};
