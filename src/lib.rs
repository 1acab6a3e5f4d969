//! Resolution of @-mentions found in federated posts and comments, the
//! notification that a mention triggers, and the conversion of a stored
//! mention to the link object that the federation protocol carries.

pub mod model;
pub mod store;
pub mod mention;
pub mod laws;

pub use model::{Account, Comment, Mention, MentionLink, MentionTarget, NewMention, Notification, Post};
pub use store::Store;
