//! Process lifecycle and configuration reconciliation for a two-role desktop
//! agent: the settings record with its hashed secret, the launch-on-login
//! reconciler, the role supervisor and the control surface that ties them
//! together. Every decision is a verified function from plain values to plain
//! values; the surrounding program performs the file, lock and launcher work.

pub mod autostart;
pub mod control;
pub mod digest;
pub mod failure;
pub mod settings;
pub mod supervisor;
