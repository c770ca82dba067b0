//! Power-policy daemon core: compiles user power/session settings into the
//! command timeline handed to an external idle helper, resolves the power-key
//! binding, coalesces bursts of change notifications, and supervises the
//! helper process lifecycle.

pub mod aggregator;
pub mod binding;
pub mod commands;
pub mod decimal;
pub mod settings;
pub mod supervisor;
pub mod timeline;
