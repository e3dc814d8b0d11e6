//! Data-removal requests to data brokers: the rules that read replies,
//! choose replies, and spread a run across sending accounts.

pub mod broker;
pub mod config;
pub mod decision;
pub mod history;
pub mod inbox;
pub mod mail;
pub mod patterns;
pub mod reply;
pub mod send;
pub mod template;
pub mod text;
pub mod weburl;
