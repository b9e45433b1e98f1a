//! A minimal Telnet server library: a per-connection protocol engine for the
//! Telnet control-byte grammar (RFC 854 option negotiation, sub-negotiation
//! framing, character- and line-erase semantics), together with the framing
//! decisions of the connection-acceptance layer and a small sequence matcher.

pub mod iter;
pub mod tcp;
pub mod telnet;
