//! Tracks the windows a tiling window manager reports and keeps them ordered
//! by recency of focus, so a switcher overlay can ask, at any instant, for a
//! consistent snapshot of windows to offer. An event-driven subscription
//! actor is the sole writer of the shared ordered store; a query actor
//! serves snapshot requests over a synchronous request/response round trip;
//! a control listener decodes external trigger messages. The store's
//! ordering rules, the event filter, the control grammar and the command
//! rendering are all verified; the window manager's IPC connection and the
//! channels between the actors stand behind trusted contracts.

pub mod commands;
pub mod control;
pub mod error;
pub mod filter;
pub mod queue;
pub mod store;
pub mod window;
