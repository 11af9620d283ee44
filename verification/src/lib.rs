//! Core of a terminal speed-typing exercise: a session presents a list of
//! target words, the user types characters, and each keystroke is classified
//! against the expected text. The crate holds the per-word character model,
//! the cursor that tracks progress through the word list, and the session
//! timer; rendering and input decoding live outside it.

pub mod cursor;
pub mod laws;
pub mod session;
pub mod word;

pub use word::EXTRA_CHAR_BOUNDARY;
pub use word::StyledChar;
pub use word::StyledWord;
pub use word::TypedState;
