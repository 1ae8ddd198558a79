//! From a photographed handwritten list to to-do items.
//!
//! A service account signs an assertion about itself ([`auth`], [`jwt`]) and
//! exchanges it for a bearer token ([`auth`]). With the token an image goes
//! to a text-detection service, and the reply is read either as a list of
//! lines or as the one largest item ([`vision_api`]). The items become tasks
//! ([`todoist`]).
//!
//! The library computes and decides; it does not talk to any service. Who
//! calls it reads the clock, sends the requests, and turns JSON into the
//! types of [`types`] and back.

pub mod auth;
pub mod error;
pub mod http;
pub mod jwt;
pub mod primitives;
pub mod text;
pub mod todoist;
pub mod types;
pub mod vision_api;
