//! A wake-up caller: alarms on recurring schedules, the ring / retry / disarm
//! lifecycle of each alarm, and the commands that act on them.

pub mod alarm;
pub mod challenge;
pub mod clock;
pub mod cmd;
pub mod fmt;
pub mod handler;
pub mod lifecycle;
pub mod reply;
pub mod store;
pub mod text;
pub mod ticker;
