//! A chat-bot command dispatcher: routes inbound messages to handlers,
//! plans the HTTP requests each handler needs and renders what comes back
//! into outbound messages.

pub mod dispatch;
pub mod fetch;
pub mod handlers;
pub mod mention;
pub mod model;
pub mod outbox;
pub mod render;
pub mod router;
pub mod stories;
pub mod text;
