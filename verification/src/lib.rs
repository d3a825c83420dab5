//! Behavioral input analytics: ingests streams of low-level input events
//! (keystrokes, deletions, pastes, selections), maintains per-session running
//! statistics, analyzes the structure of the final text, and projects the
//! collected features into a bounded set of answer tags with a confidence
//! score.

pub mod api;
pub mod event;
pub mod feature;
pub mod profile;
pub mod prompt;
pub mod ratio;
pub mod rules;
pub mod structure;
pub mod text;

pub use api::IflCore;
pub use event::DeleteKind;
pub use event::InputEvent;
pub use profile::InputProfile;
