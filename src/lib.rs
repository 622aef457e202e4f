//! Request handling for a small user directory kept in a document collection.
//!
//! Each endpoint is split into the decisions it makes, verified here, and the
//! database and HTTP work around them, which the caller performs.

pub mod collection;
pub mod handlers;
pub mod laws;
pub mod reply;
pub mod user;

pub use handlers::{
    add_user_after_insert, add_user_after_lookup, delete_user_reply, get_user_filter,
    get_user_reply, greet, update_user_replacement, update_user_reply, AddStep, Replacement,
};
pub use reply::{Body, Reply, STATUS_NOT_FOUND, STATUS_OK, STATUS_SERVER_ERROR};
pub use user::User;
