//! Request handling for the local web console of Cockpit Tools: reading and
//! parsing HTTP requests, resolving static files under the frontend root,
//! routing, response framing, the console's port bookkeeping, and the
//! argument rules of the invoke bridge.

pub mod text;
pub mod http;
pub mod response;
pub mod paths;
pub mod port;
pub mod invoke;
pub mod commands;
pub mod import;
