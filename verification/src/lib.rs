//! Guest-side instrumentation core: LIFO span tracking, tag and log
//! emission, and tag derivation from partially-untrusted structured input.

pub mod emitter;
pub mod event;
pub mod laws;
pub mod record;
pub mod span_stack;

pub use emitter::Emitter;
pub use event::Event;
pub use event::LogLevel;
pub use record::ProductRecord;
pub use span_stack::SpanStack;
pub use span_stack::SpanId;
pub use span_stack::UsageError;
