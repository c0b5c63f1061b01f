//! Tivana: the decision logic of a perception-first browser runtime for AI agents.
//!
//! The modules below hold what the runtime decides and computes: proxy rotation,
//! protocol envelopes and routing, the session lifecycle, persistence records,
//! action planning (targets, batches, form filling, fuzzy profile matching),
//! perception records, CAPTCHA classification, and the extension bridge's
//! bookkeeping. Browser I/O, sockets and timers stay with the program that
//! drives this library.

pub mod proxy;
pub mod text;
pub mod json;
pub mod error;
pub mod perceive;
pub mod protocol;
pub mod act;
pub mod session;
pub mod persistence;
pub mod browser;
pub mod captcha;
pub mod extension;
pub mod routing;
pub mod cli;
pub mod network;
pub mod smart_fill;
pub mod scripts;
