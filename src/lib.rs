//! Drives a document that lives inside an embedded script view from native
//! code: node operations become requests, a bridge admits one request at a
//! time as script text and resolves it when the view's reply arrives.

mod bridge;
mod channel;
mod document;
mod request;
mod script;

pub use bridge::{
    admit_step, consistent, initial_state, lemma_completion_fires_exactly_once, lemma_history_consistent,
    lemma_submission_follows_queue_order, resolve_step, Bridge, BridgeState, PollError,
};
pub use channel::Received;
pub use document::{Document, Element, FIRST_ID, ROOT_ID};
pub use request::{kind_name, node_ref, notify, script_of, Message, Operation, Request};
pub use script::{
    bootstrap, bootstrap_script, decimal, digit, escape_char, escaped, quoted, quoted_literal,
};
