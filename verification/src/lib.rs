//! Interface between a model-serving frontend and interchangeable inference
//! backends: the batch layout handed to a backend, the pooling strategies,
//! the model taxonomy, the error taxonomy, and the backend capability trait.

pub mod backend;
pub mod batch;
pub mod error;
pub mod model_type;
pub mod pool;

pub use backend::{Backend, Embedding};
pub use batch::Batch;
pub use error::BackendError;
pub use model_type::ModelType;
pub use pool::Pool;
