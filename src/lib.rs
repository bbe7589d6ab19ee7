pub mod definition;
pub mod lifecycle;
pub mod printer;
pub mod task;
pub mod trace;

pub use definition::TaskDefinition;
pub use printer::Printer;
pub use task::{build_safe_sync_ptr, SafeSyncPtr, Task};
