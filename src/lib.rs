//! Probing of the host environment for node configuration: reserving a free
//! TCP port, picking a local non-loopback IP address, building a network
//! address from an IP and a port, and reading the genesis transaction out of
//! a node's configuration.

pub mod address;
pub mod genesis;
pub mod port;

pub use address::{
    get_available_port_in_multiaddr, get_local_ip, InterfaceRecord, IpAddress, NetworkAddress,
    Protocol,
};
pub use genesis::{get_genesis_txn, ExecutionConfig, NodeConfig};
pub use port::{
    get_available_port, PortAction, PortEvent, PortSearch, MAX_PORT_RETRIES, RANDOM_PORT_END,
    RANDOM_PORT_START,
};
