//! A safe layer over a sound server's blocking "simple" streaming API.
//!
//! The crate holds the configuration, lifecycle and byte-accounting logic of
//! a blocking audio stream: a [`pa_simple::Builder`] accumulates a stream
//! configuration and finalizes it into a typed [`pa_simple::Reader`] or
//! [`pa_simple::Writer`]. The handles never touch the native connection
//! themselves: every native operation is described by a plain value
//! ([`pa_simple::Command`], [`pa_simple::TeardownStep`]) that an embedder
//! carries out, and every native outcome is handed back as plain values,
//! so the whole decision layer is checked by Verus.

pub mod low_level;
pub mod pa_simple;
