//! A software clock: it ticks at a fixed period and signals every
//! registered listener on each tick until it is told to stop.
//!
//! The clock's decisions (when it may start, what each turn of its run loop
//! does, when it stops, who is told of a tick) are verified here; the
//! asynchronous runtime that waits for the timer and delivers the signals
//! drives them from outside.

pub mod channel;
pub mod clock;
pub mod error;
pub mod listener;
pub mod time;

