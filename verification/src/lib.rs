//! Verified core of a desktop command shim.
//!
//! A thin command layer exposes OS capabilities (file dialogs, notifications,
//! update checks, persisted settings) to a front-end UI. The platform calls
//! themselves are performed by the surrounding application; this crate holds
//! every decision and translation the shim makes, with contracts:
//! which name each OS is reported under, how a dialog outcome becomes a
//! response, when an update install is refused, and how the persisted
//! settings entry behaves.

pub mod dialog;
pub mod error;
pub mod notify;
pub mod os;
pub mod settings;
pub mod update;
