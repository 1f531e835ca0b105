//! Play-session tracking for a learning game: player profiles, the events of
//! a session, per-session summaries and a store of sessions.

pub mod event;
pub mod map;
pub mod profile;
pub mod session;
pub mod store;
pub mod summary;
pub mod text;

pub use event::SessionEvent;
pub use map::TextMap;
pub use profile::PlayerProfile;
pub use session::PlaySession;
pub use store::SessionStore;
pub use summary::SessionSummary;
