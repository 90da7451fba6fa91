//! Login status of a desktop messenger driven through its accessibility tree.

pub mod auth;
pub mod event_laws;
pub mod events;
pub mod login;
pub mod login_laws;
pub mod login_ws;
pub mod logout;
pub mod observed;
pub mod observed_laws;
pub mod outside;
pub mod played_laws;
pub mod request_laws;
pub mod search_laws;
pub mod session;
pub mod slot;
pub mod text;
pub mod tree;
