//! Sirin flight computer core: the "song" wire format, the packets that travel over USB, radio
//! and flash, the flight phase state machine and the estimator's bookkeeping.

pub mod song;
pub mod mode;
pub mod flight;
pub mod time;
pub mod config;
pub mod packet;
pub mod estimator;
pub mod health;
pub mod runtime;
pub mod gating;
pub mod history;
pub mod error;
pub mod state;
pub mod byte_str;
pub mod payload;
pub mod lis3mdl;
