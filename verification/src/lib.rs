//! A byte/string input-reading core for building recoverable parsers over
//! untrusted data.
//!
//! Every computed sub-range of an input traces back, by offset containment,
//! to a range of the original buffer, and every failure is described by a
//! closed set of error kinds that can be wrapped with named operation
//! contexts as it propagates, then rendered as a human-readable report.

pub mod expected;
pub mod input;
pub mod laws;
pub mod prefix;
pub mod read;
pub mod render;
pub mod retry;
pub mod traits;

pub use expected::Expected;
pub use expected::ExpectedLength;
pub use expected::ExpectedValid;
pub use expected::ExpectedValue;
pub use input::Input;
pub use prefix::Prefix;
pub use input::InputModel;
pub use input::Text;
pub use input::TextModel;
pub use retry::RetryRequirement;
pub use traits::Context;
pub use traits::Details;
pub use traits::Error;
pub use traits::FromContext;
pub use traits::FromExpected;
pub use traits::Invalid;
