//! Paystub tracking: the processing life cycle of a paystub, its persistent
//! store, and the event queue through which the interface components talk.
pub mod app;
pub mod components;
pub mod event;
