//! Session credentials for a multi-user content service: paired access and
//! refresh tokens, their expiry policy, rotation on refresh, and the store
//! that keeps them.

pub mod error;
pub mod time;
pub mod token;
pub mod auth;
pub mod store;
pub mod session;
pub mod manager;
pub mod lifecycle;

pub use auth::Auth;
pub use error::StratError;
pub use manager::SessionManager;
pub use session::{AuthRefresh, AuthToken};
pub use store::SessionStore;
