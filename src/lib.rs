//! Random password generation with per-class presence constraints, a
//! restricted set of punctuation marks, and a fixed-capacity secret buffer
//! that is wiped when it is released.

pub mod symbol;
pub mod char_set;
pub mod mark;
pub mod text;
pub mod password;
pub mod generator;

pub use char_set::CharSet;
pub use generator::{Attempt, CharClass, GeneratorError, PasswordGenerator, SettingChange};
pub use mark::MarkSet;
pub use password::{Password, PasswordError};
