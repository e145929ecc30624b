//! A deferred, double-buffered pipeline of graphics commands: producers record
//! resource and draw commands into one frame while the device executes the
//! previous one, in recorded order.

pub mod arena;
pub mod backend;
pub mod assets;
pub mod device;
pub mod frame;
pub mod handle;
pub mod laws;
pub mod pool;
pub mod registry;
pub mod stream;
pub mod surface;
pub mod table;
pub mod video;
