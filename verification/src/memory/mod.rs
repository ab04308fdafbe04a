pub mod aligned;
pub mod allocator;
pub mod hugepage;
pub mod mapping;
pub mod ops;
pub mod system;

pub use allocator::{
    AlignedConfig, HugepageConfig, Memory, MemoryAllocator, MemoryConfig, MemoryType, SystemConfig,
};
pub use ops::{MemoryError, MemoryOps};
