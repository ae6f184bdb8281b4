//! Task and client tracking: the domain entities, the aggregate that holds
//! them, and the operations of the store, each with a checked contract.

pub mod data;
pub mod error;
pub mod laws;
pub mod model;
pub mod provide;
pub mod store;

pub use data::{AppData, AppDataView};
pub use error::AppError;
pub use model::{Client, ClientView, Task, TaskPriority, TaskView};
pub use store::AppState;
