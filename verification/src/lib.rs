//! Client-side logic for a remote human-in-the-loop confirmation service.
//!
//! A caller builds a [`types::ConfirmationQuestion`], submits it to the
//! service, and polls until a human answers or an optional timeout elapses.
//! This crate holds the typed question/answer model, the JSON wire codec,
//! and the decision logic of the create/poll protocol; the HTTP transport
//! itself is an unverified shell around it.

pub mod client;
pub mod error;
pub mod json;
pub mod types;
pub mod wire;

pub use client::WaitHuman;
pub use error::WaitHumanError;
pub use types::{
    AnswerContent, AnswerFormat, AskOptions, ConfirmationAnswer, ConfirmationAnswerWithDate,
    ConfirmationQuestion, QuestionMethod, WaitHumanConfig,
};
