//! Decoding of captured link-layer frames: Ethernet, then IPv4, IPv6 or ARP,
//! then TCP or UDP ports. Every frame decodes to a structured report; nothing
//! here prints, blocks or keeps state between frames.

pub mod address;
pub mod headers;
pub mod info_packet;
