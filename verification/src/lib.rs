//! Login adapter for an OAuth2 identity provider: configuration, the
//! authorization redirect, the outcome of the code exchange and the profile
//! of the signed-in user.

pub mod authorize;
pub mod config;
pub mod encoding;
pub mod flow;
pub mod http;
pub mod json;
pub mod profile;
mod text;
pub mod token;
pub mod url_laws;

pub use crate::authorize::get_url;
pub use crate::config::get_client;
pub use crate::profile::get_user;
pub use crate::profile::DiscordUser;
pub use crate::token::get_token;
