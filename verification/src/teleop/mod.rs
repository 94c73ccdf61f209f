//! Teleop tier: input devices that emit canonical commands.

pub mod devices;

pub use devices::DemoCartesianDevice;
