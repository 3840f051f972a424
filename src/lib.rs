//! Naming and bookkeeping for the windows of a desktop shell: which window
//! kinds exist, the unique keys that tell instances apart, the labels they
//! get, and the replies that the window commands send back.

pub mod counter;
pub mod decimal;
pub mod envelope;
pub mod label;
pub mod template;
pub mod windows;
