//! Native bridge between two managed runtimes: the value model that crosses
//! the boundary, the identifier registries, the object identity table and the
//! decisions of the invocation protocol.

pub mod dotnet;
pub mod error;
pub mod objects;
pub mod registry;
pub mod state;
pub mod value;
pub mod wire;

pub use error::NotFoundError;
pub use registry::JavaFnId;
pub use state::LibState;
pub use value::FunctionParameter;
pub use value::ObjectId;
pub use value::ReturnValue;
