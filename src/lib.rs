//! A safety layer between a host program and a reference-counted string
//! engine: counted value references tied to the context that made them, a
//! checked-call bridge that drains the engine's pending exception, and
//! conversions between host text and engine strings.
pub mod convert;
pub mod engine;
pub mod error;
pub mod exception;
pub mod string;
pub mod value;

pub use convert::read_text;
pub use engine::{Context, ContextView, RawValue, TextBuffer, ValueState};
pub use error::Error;
pub use exception::handle_exception;
pub use string::String;
pub use value::ValueRef;
