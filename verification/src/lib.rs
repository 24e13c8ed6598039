//! The core of a monitor for air-quality sensors that report over MQTT.
//!
//! The network loop, the window and the files are the program's; what they
//! do is decided here, and proved. The modules, from the leaves up:
//!
//! - [`text`]: questions about sequences of characters;
//! - [`metric`]: the kinds of readings and the events that carry them;
//! - [`mqtt`]: which metric a topic stands for, and which topics to subscribe to;
//! - [`supervisor`]: the connection loop's decisions, with its backoff;
//! - [`session`]: the parameters of a session, and the one-shot connection test;
//! - [`tls`]: the certificates that a TLS session trusts;
//! - [`channel`]: the queue of events between the loop and the consumer;
//! - [`store`]: the current state that the events add up to;
//! - [`pipeline`]: what holds from the supervisor through to the store;
//! - [`dashboard`]: the layout of the dashboard and its repair;
//! - [`config`]: the settings, their defaults and their conditions;
//! - [`secrets`]: the broker password in the system keyring;
//! - [`app`]: the state of the program behind its window.

pub mod app;
pub mod channel;
pub mod config;
pub mod dashboard;
pub mod metric;
pub mod mqtt;
pub mod pipeline;
pub mod secrets;
pub mod session;
pub mod store;
pub mod supervisor;
pub mod text;
pub mod tls;
