pub mod attachment;
pub mod base;
pub mod bot;
pub mod channel;
pub mod invite;
pub mod member;
pub mod message;
pub mod role;
pub mod server;
pub mod session;
pub mod user;
