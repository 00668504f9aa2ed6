//! Management of the udev rule that marks one network interface as unmanaged
//! for SR-IOV, and of the steps that bring udev in line with it.
pub mod command;
pub mod lifecycle;
pub mod plan;
pub mod rule;
