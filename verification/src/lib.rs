//! A binary cache for Nix store paths that also forwards the requests of its own
//! machine to the other machines of a mesh: what is decided, what is written, and
//! what is remembered of the hosts.

pub mod front;
pub mod json;
pub mod narinfo_laws;
pub mod narinfo_reading;
pub mod path_info;
pub mod path_info_laws;
pub mod remote;
pub mod remote_laws;
pub mod reply;
pub mod request_laws;
pub mod store;
pub mod store_laws;
pub mod text;
pub mod text_laws;
pub mod view_laws;
