pub mod error;
pub mod facade;
pub mod laws;
pub mod pool;

pub use error::Error;
pub use pool::AcquireDecision;
pub use pool::PoolCore;
pub use pool::Recycle;
pub use pool::ReleaseAction;
