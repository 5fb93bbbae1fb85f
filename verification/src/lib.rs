//! Connection lifecycle core of a low-latency VR streaming link.
//!
//! The crate holds the decisions that a headset ("client") and a PC
//! ("server") take while they find each other, agree on a stream
//! configuration, run the per-connection loops and tear them down again.
//! Sockets, timers, audio devices and the VR driver stay with the caller:
//! every function here maps plain values to plain values and carries a
//! contract that Verus proves.
//!
//! Real-valued quantities travel as IEEE-754 single-precision bit patterns
//! ([`scalar::Scalar`]). Where the library has to compute with one, it takes
//! the exact value that the pattern encodes, in integer arithmetic.
//!
//! On the server, [`registry`] keeps the known clients, [`handshake`]
//! settles the stream parameters and derives the driver configuration of
//! [`openvr`] from the [`settings`], [`pipeline`] leads through one
//! connection, and [`streams`] and [`control`] take the turns of its loops.
//! On the client, [`client`] is the interface to the host application and
//! [`storage`] with [`config_file`] what it remembers between two runs.
//! Both keep [`statistics`].

pub mod scalar;
pub mod wide;
pub mod settings;
pub mod openvr;
pub mod text;
pub mod registry;
pub mod handshake;
pub mod statistics;
pub mod control;
pub mod pipeline;
pub mod streams;
pub mod config_file;
pub mod storage;
pub mod client;
