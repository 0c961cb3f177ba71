//! An awaitable adapter over an opaque foreign future handle.
//!
//! A foreign runtime produces a handle for an in-flight asynchronous
//! operation. The [`adapter::CxxFuture`] type implements the poll/wake/destroy
//! protocol over that handle, going only through the narrow capability
//! interface [`capability::FutureResult`] that any foreign result type must
//! provide. The [`counterpart::ModelCounterpart`] type is an in-memory,
//! verified implementation of that capability, used to exercise the adapter
//! and to witness that the capability contract is satisfiable.

pub mod adapter;
pub mod capability;
pub mod counterpart;
pub mod exception;
