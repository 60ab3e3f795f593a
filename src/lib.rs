//! Passing open file descriptors between unrelated processes over a
//! connected Unix domain stream socket, using `SCM_RIGHTS` ancillary data.
//!
//! The library holds the parts of the protocol that are decisions on plain
//! values: the layout of the control message that carries one descriptor,
//! how a received control region is judged, what becomes of the syscalls'
//! results, and the readiness state machine of the non-blocking adapter.
//! The syscalls themselves are made by the caller, which hands their results
//! back as integers and bytes.

pub mod error;
pub mod platform;
pub mod cmsg;
pub mod transfer;
pub mod adapter;
pub mod laws;
