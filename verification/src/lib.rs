//! An interactive text prompt: an editable line of text with a cursor,
//! suggestions that the user can cycle through, and the rules by which each
//! key press changes the prompt and decides whether it goes on, fails
//! validation, or yields a value.

pub mod autocomplete;
pub mod filter;
pub mod input;
pub mod prompt;
pub mod theme;
pub mod validate;

pub use autocomplete::{Autocomplete, AutocompleteResult};
pub use input::Input;
pub use prompt::cursor::StringCursor;
pub use prompt::interaction::{Event, KeyPress, State};
pub use theme::{Theme, ThemeState};
pub use validate::Validate;
