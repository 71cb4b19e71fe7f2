//! Lookups against the Old School RuneScape hiscore and item catalogue
//! services, without the transport.
//!
//! A lookup is one request and one reply. `request` gives the address to get;
//! the caller sends the request and hands what came back, as a `Reply`, to
//! `conclude_player_lookup` or `conclude_item_search`. These parse the body
//! with `serde_json`, decode it into the response as the service sends it
//! (`wire`), and copy that into the skills or items for the caller
//! (`normalize`, `entity`). A lookup fails in one of two ways (`error`):
//! no body could be had, or the body is not the response asked for.

pub mod document;
pub mod entity;
pub mod error;
pub mod lookup;
pub mod normalize;
pub mod request;
pub mod shape;
pub mod wire;

pub use entity::{Item, Skill};
pub use error::LookupError;
pub use lookup::{conclude_item_search, conclude_player_lookup, Reply};
pub use request::{items_url, player_url};
