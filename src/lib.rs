//! A resilient client for a real-time event subscription: the decisions of
//! its stream loop, session negotiation, subscription planning, frame decoding
//! and credential lifecycle, each stated as a contract and verified.
pub mod credential;
pub mod device;
pub mod fields;
pub mod frame;
pub mod json;
pub mod notice;
pub mod notify;
pub mod provider;
pub mod retry;
pub mod sanitize;
pub mod session;
pub mod stream;
pub mod subscriptions;
pub mod token;
