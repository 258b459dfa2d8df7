//! Verified core of the Brane job runtime: values that flow through the
//! virtual machine, the container plans used to run package functions under
//! Docker, and the translation of job callbacks into events.

pub mod docker;
pub mod text;
pub mod lifecycle;
pub mod values;
pub mod codec;
