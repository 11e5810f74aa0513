//! Lifecycle of a custom Bluetooth LE serial profile: the advertising
//! identity derived for each activation, the guard of the profile's stop
//! entry, and the controllers that own the callback registrations installed
//! into the radio stack. The controllers do no I/O: each operation hands back
//! the steps to perform against the host stack, in order.

pub mod bt;
pub mod callback;
pub mod gap;
pub mod host;
pub mod serial_profile;
