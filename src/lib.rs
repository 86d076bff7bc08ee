//! Progress of a user typing a target text.
//!
//! [`TypingState`] splits the text into what was typed correctly, a parked
//! mistake, the character expected next and what is not reached yet, and
//! moves characters between those segments one keystroke at a time.
pub mod model;
pub mod laws;
pub mod state;

pub use model::TypingModel;
pub use state::TypingState;
