//! Session gate for the TODOx web server: signed session tokens, the cookie
//! that carries them, and the per-request decision to admit or redirect.
pub mod carrier;
pub mod codec;
pub mod gate;
