//! Core of a real-time shader playground: the GPU frame-submission and
//! synchronization engine.
//!
//! The engine owns the graphics and copy command queues, issues and waits on
//! fence signals, manages the per-index render targets and the swap chain,
//! sequences per-frame command-list recording (draw the shader, composite the
//! overlay, present), and runs an asynchronous capture pipeline that copies
//! finished frames off the GPU for screenshots and video encoding.
//!
//! The graphics device itself is an outside collaborator: every GPU call is an
//! *action* that a driver layer performs. This crate holds the engine's whole
//! decision and bookkeeping logic over plain values — fence counters, signal
//! tables, pool slots, recorded command operations — with contracts that pin
//! down what each step does. A driver performs the recorded submissions and
//! reports GPU progress back through the fence table.

pub mod error;
pub mod messages;
pub mod pool;
pub mod renderer;
pub mod settings;
