//! Entry points that take the generation as a const parameter, for code that
//! is shared by every engine.
pub mod dispatch;
