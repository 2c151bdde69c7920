//! The relay: from the packets of a device to connections and back.

pub mod client;
pub mod client_channel;
pub mod client_loop;
pub mod clock;
pub mod connection;
pub mod datagram_buffer;
pub mod ip_packet;
pub mod ip_packet_buffer;
pub mod net;
pub mod relay;
pub mod router;
pub mod serial_registry;
pub mod stream_buffer;
pub mod transfer;
pub mod udp_connection;
