//! Core of a single-process relay that lets one sharer broadcast a live
//! stream of binary frames to any number of viewers.
//!
//! The crate holds the state of the relay and every decision it takes: the
//! advisory sharing flag, the bounded frame bus with its drop-oldest policy,
//! the life cycle of one client session, and the text of the pages served
//! next to the relay. It performs no I/O: a host program owns the sockets,
//! feeds events in and carries the answers out.
//!
//! The state is plain data and every operation is one step on it. A host
//! that serves its clients concurrently keeps the relay behind a lock and
//! takes the steps one at a time; what [`laws`] proves of runs of steps then
//! holds of the order in which the host took them.

pub mod arbiter;
pub mod frame_bus;
pub mod laws;
pub mod message;
pub mod pages;
pub mod relay;
pub mod session;
