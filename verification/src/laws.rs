//! What holds of the functions of the library for all of their inputs.
pub mod agents;
pub mod choices;
pub mod documents;
pub mod events;
pub mod files;
pub mod runs;
pub mod sessions;
pub mod terminal_preferences;
pub mod terminals;
pub mod texts;
pub mod transcripts;
