//! Client-side envelope for typed key-value calls against a storage node.
//!
//! A [`call::Call`] pairs one request with its matching reply. An
//! [`sender::HTTPSender`] turns the request into the body of one HTTP POST and
//! folds whatever came back (no answer, a status, a body) into the reply, so
//! that the reply header's error field is the single place a caller looks.

pub mod api;
pub mod call;
pub mod codec;
pub mod lemmas;
pub mod sender;
pub mod wire;
