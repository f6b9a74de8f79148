//! Asynchronous Language Server Protocol (LSP) framework.
pub mod concurrency;
pub mod error;
pub mod event;
pub mod framing;
pub mod language;
pub mod main_loop;
pub mod message;
pub mod omni_trait;
pub mod outside;
pub mod panic;
pub mod router;
pub mod server;
pub mod service;
pub mod socket;
pub mod table;
pub mod text;

pub use crate::panic::{
    default_handler, CatchUnwind, CatchUnwindBuilder, CatchUnwindLayer, PanicPayload,
};
