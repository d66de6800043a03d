pub mod permissions;
pub mod text;
pub mod types;
pub mod badges;
pub mod tokens;
pub mod time;
pub mod email;
pub mod migration;
pub mod error;
pub mod snowflakes;
