//! A terminal client for a public news aggregation feed.
//!
//! The verified core covers the pieces with real coordination logic: the
//! application state machine that drives screen transitions, the fetch
//! pipeline that resolves ranked story identifiers into story records while
//! tolerating individual failures and reporting monotone progress, and the
//! message/input handling that keeps the two in step. Terminal rendering and
//! network transport live outside the library and hand it plain values.

pub mod events;
pub mod fetch;
pub mod state;
pub mod story;

pub use events::Action;
pub use events::AppMessage;
pub use events::Envelope;
pub use events::Key;
pub use fetch::FetchTask;
pub use state::App;
pub use state::AppState;
pub use story::FetchError;
pub use story::Story;
