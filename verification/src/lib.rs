//! Chat-bot messages for a webhook: the message model, its JSON form and the
//! text of the request that carries it.

pub mod json;
pub mod element;
pub mod post;
pub mod card;
pub mod message;
