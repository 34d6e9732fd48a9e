//! Kaze: adaptive cache cleaning. Each plugin looks at the running
//! processes, then cleans its application's cache gently when the
//! application is in use and aggressively when it is not, always through the
//! application's own cleaning commands.

pub mod config;
pub mod daemon;
pub mod detector;
pub mod executor;
pub mod behaviour;
pub mod laws;
pub mod notifier;
pub mod plugins;
pub mod text;
