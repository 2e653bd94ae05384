//! Configuration and extension types: cookies, initialization options, plugins, secrets.

pub mod cookie;
pub mod init_options;
pub mod plugin;
pub mod secret;
