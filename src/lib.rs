//! Review handling for a shared card deck: proposed edits to cards are
//! checked for novelty, stamped with an identifier, stored, listed next to
//! the card they target, and shown as a field-by-field difference.
pub mod card;
pub mod cors;
pub mod review;
pub mod error;
pub mod diff;
pub mod reconcile;
pub mod listing;
pub mod repo;

pub use card::Card;
pub use cors::CORS;
pub use error::Error;
pub use review::Review;
pub use repo::{GitError, test_repo};
