//! Control-plane logic of a small multi-node container-fleet controller.
//!
//! A server keeps a registry of nodes, each driven by an agent, in a small
//! key-value store. This crate holds the rules of that control plane as
//! functions on plain values: what a registration changes, when a node
//! counts as offline, where a proxied request goes, what a deployment runs.
//! Reading sockets, files and databases is left to the program around it.

pub mod agent;
pub mod api;
pub mod application;
pub mod auth;
pub mod bundle;
pub mod cli;
pub mod config;
pub mod constants;
pub mod deploy;
pub mod docker;
pub mod download;
pub mod engine;
pub mod env;
pub mod http;
pub mod image;
pub mod kvs;
pub mod migrations;
pub mod node;
pub mod obj;
pub mod proxy;
pub mod statement;
pub mod terminal;
pub mod text;
pub mod utils;
