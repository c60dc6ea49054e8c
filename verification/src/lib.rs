//! A rule engine for LoRaWAN device automation: rules watch a stream of
//! device telemetry messages, evaluate boolean conditions over the telemetry
//! (or over wall-clock time), and when a rule's conditions hold, produce
//! downlink queue items for a remote device-management API.
//!
//! The connection handling (MQTT broker, gRPC transport) and the interactive
//! rule builder live outside this library; the library holds the rule data
//! model, the message-coalescing buffer, condition evaluation, the boolean
//! fold, and the downlink payload encoding.

pub mod connections;
pub mod devices;
pub mod dispatch;
pub mod engine;
pub mod extract;
pub mod floatbits;
pub mod json;
pub mod messages;
pub mod operators;
pub mod rules;
pub mod textutil;
pub mod timecheck;
