//! Modifier-gated key logging.
//!
//! A monitor watches one input device and keeps a record of what is typed
//! while the left Alt key is held. This crate holds the part of such a monitor
//! that decides: which driver events are key events, how the held state of the
//! modifier follows from them, which events leave a record, and what each
//! record says. Reading the device and appending to the log file are left to
//! the program around it, which hands events in and takes lines out.

pub mod decimal;
pub mod event;
pub mod failure;
pub mod logger;
pub mod text;
pub mod trace;
