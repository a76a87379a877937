//! The client side of the plex.tv account service: signing in by PIN,
//! typed requests with a closed catalog of errors, and the choice of a
//! connection to a server.
//!
//! The crate sends nothing and reads no file. It makes requests, decides
//! what an answer means and keeps the state of a session; the program around
//! it does the sending, the waiting and the storing.

pub mod apiclient;
pub mod appstate;
pub mod client;
pub mod clienterror;
pub mod config;
pub mod errors;
pub mod headers;
pub mod pinlogin;
pub mod plextvclient;
pub mod serverclient;
pub mod text;
pub mod types;
pub mod viewmodel;

pub use plextvclient::PlexTvClient;
pub use plextvclient::RequestError;
pub use plextvclient::APP_PLEXTV;
pub use plextvclient::PLEXTV;
