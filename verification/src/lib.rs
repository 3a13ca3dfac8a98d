//! Batching delivery of structured log events to a bulk-indexing service.
//!
//! Events are encoded into the lines of the bulk wire format (`template`,
//! `json`, `encoder`), gathered into batches bounded by size and age
//! (`batch`), turned into plain or signed requests (`request`), carried out
//! under concurrency, rate and retry limits (`limits`, `retry`, `service`)
//! and acknowledged in the order in which their batches were handed over
//! (`acker`). `sink` ties these together; `config` resolves what the operator
//! wrote into the settings they all work from. What is taken on trust of
//! other crates stands in `bindings`.
//!
//! The library computes and decides; it reads no clock and opens no
//! connection. Its caller tells it the time, performs the requests it hands
//! out and reports how they ended.

pub mod acker;
pub mod batch;
pub mod bindings;
pub mod config;
pub mod encoder;
pub mod event;
pub mod json;
pub mod limits;
pub mod request;
pub mod retry;
pub mod service;
pub mod sink;
pub mod template;
pub mod text;
