//! Message logic of an MQTT device-information plugin: topic routing,
//! payload decoding, command framing and the remote shell session.
pub mod text;
pub mod style;
pub mod topic;
pub mod event;
pub mod command;
pub mod plugin;
