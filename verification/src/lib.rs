//! A host for plugins that offer tools to a chat model.
//!
//! A plugin is an executable that runs as a long-lived process and talks to
//! the host over its standard streams, one JSON document per line. This
//! library holds the rules of that exchange and of the completion requests
//! that use the tools:
//!
//! - [`protocol`]: the envelopes on the wire, and how they are written and read;
//! - [`instance`]: the requests in flight to one plugin;
//! - [`manager`] and [`registry`]: the loaded plugins and the routing of tool
//!   names to them;
//! - [`conversation`], [`fragments`] and [`orchestration`]: one completion
//!   request, from the conversation put before the model to the tool calls
//!   carried out for it;
//! - [`models`], [`error`], [`ids`] and [`json`]: the records, the failures,
//!   identifiers and JSON documents that the others share.
//!
//! The library starts no process and opens no connection. The program around
//! it does, and asks the library at each step what to do.
pub mod conversation;
pub mod error;
pub mod fragments;
pub mod ids;
pub mod instance;
pub mod json;
pub mod manager;
pub mod models;
pub mod orchestration;
pub mod protocol;
pub mod registry;
