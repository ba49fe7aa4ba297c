//! Command execution and aggregation core for a community content platform.
//!
//! Typed operation requests (site configuration, ownership transfer,
//! moderation-log queries, federated search) are resolved against a modelled
//! relational store, with authentication, authorization and content-moderation
//! policy enforced uniformly behind one dispatch contract.

pub mod api;
pub mod auth;
pub mod entities;
pub mod laws;
pub mod modlog;
pub mod moderation;
pub mod query;
pub mod ranking;
pub mod search;
pub mod store;
pub mod text;
