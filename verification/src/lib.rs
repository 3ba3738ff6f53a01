//! Verified core of a small HTTP server for an ESP32 board: the HTTP
//! responses it builds and their byte encoding, the answer it gives a
//! request, the decisions of its connection and socket loops, and the power
//! management unit's start-up sequence.
pub mod encoding;
pub mod http;
pub mod application_layer;
pub mod pmu;
pub mod startup;
pub mod network;
