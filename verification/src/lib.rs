//! Window placement, key relay and end-to-end harness logic for Hotki.

pub mod access_laws;
pub mod error;
pub mod geom;
pub mod geom_laws;
pub mod pattern;
pub mod permissions;
pub mod pick;
pub mod place;
pub mod raise;
pub mod raise_laws;
pub mod relaykey;
pub mod screen;
pub mod smoketest;
pub mod status;
pub mod text;
pub mod text_laws;
pub mod wait;
pub mod window;
pub mod window_laws;
