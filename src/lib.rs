//! An image transcoding service core: request intake, a bounded
//! decode/resize/encode pipeline, a constant-time credential guard and the
//! mapping of outcomes to replies.

pub mod auth;
pub mod codec;
pub mod config;
pub mod decimal;
pub mod health;
pub mod intake;
pub mod processor;
pub mod reply;
