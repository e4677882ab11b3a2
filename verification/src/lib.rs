//! The state behind a desktop status bar, and the short texts shown for it.
//!
//! The bar is fed from a system bus that reports, signal by signal, on the
//! machine's battery and on Bluetooth peripherals. [`monitor`] keeps what the
//! signals have said so far and answers each event of the message stream with
//! what to show; [`signal`] reads messages, [`registry`] keeps the
//! peripherals, [`battery`] the machine's battery, and [`display`] derives
//! the texts. [`subscription`] names the signals to ask the bus for, and
//! [`names`] says which texts the bus takes as names.
//! [`title`], [`workspace`] and [`audio`] hold the rules for the other
//! widgets of the bar.
//!
//! The library does no input or output. Its owner reads from the bus, hands
//! over [`value::BusValue`]s, and shows the texts it gets back.

pub mod audio;
pub mod battery;
pub mod bluetooth;
pub mod display;
pub mod error;
pub mod monitor;
pub mod names;
pub mod registry;
pub mod signal;
pub mod subscription;
pub mod title;
pub mod value;
pub mod workspace;
