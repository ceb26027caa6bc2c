//! A passive protocol demultiplexer core: recognizers classify the first
//! bytes of a TCP stream, a classifier state machine decides when enough
//! data has arrived (or never will), a dispatcher resolves the upstream
//! address for the classified protocol, and a relay model accounts for the
//! byte-exact forwarding of the sniffed prefix and everything after it.

pub mod classifier;
pub mod config;
pub mod detect;
pub mod relay;
