//! Decision logic of a hosting-panel backend.
//!
//! The panel authenticates users, keeps records of servers and VPS instances
//! in a relational store, and mirrors the state of the VPS instances that a
//! cloud provider runs. This crate holds the rules of that backend as
//! verified code. Talking to the store, to the provider and to HTTP clients
//! is left to the program around it:
//!
//! - an operation that reads, computes and writes is a function from what was
//!   read to what is to be written or returned;
//! - an operation that decides between its calls to the store or the provider
//!   is a transition function, handed what happened last and answering what
//!   is to be done next (see [`services::flow`]).
//!
//! Records are identified by 128-bit numbers and stamped with UTC instants.
//! What the clock, the random source and the code generator of the second
//! factor yield is taken through a handful of trusted functions, each
//! documented as such.

pub mod api;
pub mod clock;
pub mod config;
pub mod ident;
pub mod models;
pub mod services;
pub mod text;
pub mod utils;

