//! Start-up decisions for a graphics application: which validation layers and
//! instance extensions to request, when to attach a debug messenger, how the
//! window's run loop reacts to events, and in which order the owned handles are
//! released. The platform and driver calls themselves are made by the caller,
//! which hands the results to these functions as plain values.
pub mod bootstrap;
pub mod lifecycle;
pub mod settings;
