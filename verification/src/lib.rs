//! Session pooling, list harvesting and fetch orchestration for a browser-driven
//! profile archiver.
//!
//! The library decides and the caller acts. Whatever needs a browser, a
//! file or a task is asked for as a value (a [`session::Command`], a
//! [`pool::SessionRequest`], an [`orchestrator::RunAction`]), and the caller
//! hands back how it ended. Every step is a function with a contract over a
//! mathematical model of its state, so the rules of the pool, of the harvest
//! and of the workers are proved for every sequence of outcomes.
//!
//! - [`pool`]: the slots of the automation servers, leased and taken back.
//! - [`auth`]: authenticating a session from the cached token or by a login.
//! - [`collector`]: harvesting a list that grows as the page is scrolled.
//! - [`orchestrator`]: the run as a whole and its workers.
//! - [`users`], [`post`]: what is read off the pages, and the fetches.
//! - [`html`], [`json`], [`text`], [`seqs`]: pages and documents as plain values.
//! - [`config`], [`links`], [`session`]: settings, links, commands and replies.

pub mod auth;
pub mod collector;
pub mod config;
pub mod html;
pub mod json;
pub mod links;
pub mod orchestrator;
pub mod pool;
pub mod post;
pub mod seqs;
pub mod session;
pub mod text;
pub mod users;
