//! The development-server proxy: shared options, command resolution,
//! supervision of the backend's output, and request forwarding.

pub mod options;
pub mod proxy;
pub mod resolver;
pub mod supervisor;
