use vstd::prelude::*;

verus! {

/// Host name of the MQTT broker.
pub const BROKER_HOST: &'static str = "broker.hivemq.com";

/// TCP port of the MQTT broker.
pub const BROKER_PORT: u16 = 1883;

/// Topic the readings are published on.
pub const TOPIC: &'static str = "temperature/1";

/// Client identifier presented to the broker.
pub const CLIENT_ID: &'static str = "clientId-8rhWgBODCl";

/// Largest MQTT packet the client announces.
pub const MAX_PACKET_SIZE: u32 = 100;

/// Length of each of the MQTT client's send and receive buffers.
pub const MQTT_BUFFER_LEN: usize = 80;

/// Length of each of the TCP socket's send and receive buffers.
pub const TCP_BUFFER_LEN: usize = 4096;

/// Number of properties the MQTT client configuration can carry.
pub const MQTT_MAX_PROPERTIES: usize = 5;

/// Seed of the counting generator that numbers MQTT packets.
pub const MQTT_RNG_SEED: u64 = 20000;

/// Whether the broker keeps the last reading for new subscribers.
pub const RETAIN_READINGS: bool = true;

/// Seconds of silence after which the TCP socket gives up.
pub const SOCKET_TIMEOUT_SECS: u64 = 10;

/// Seed of the network stack.
pub const STACK_SEED: u64 = 1234;

/// Number of sockets the network stack has room for.
pub const STACK_SOCKETS: usize = 3;

/// Milliseconds between two looks at the link or at the address lease.
pub const POLL_INTERVAL_MS: u64 = 500;

/// Milliseconds waited before each attempt to reach the broker.
pub const ATTEMPT_PAUSE_MS: u64 = 1000;

/// Milliseconds between two readings once a reading was delivered.
pub const PUBLISH_PERIOD_MS: u64 = 3000;

/// Milliseconds the Wi-Fi keeper holds off after a disconnection or a failed
/// association.
pub const WIFI_HOLD_MS: u64 = 5000;

/// Reason code the MQTT client reports when the transport failed.
pub const NETWORK_ERROR_CODE: u8 = 0xFF;

/// Delivery guarantee of a published reading.
#[derive(Debug, Clone, Copy, PartialEq, Eq)]
pub enum Delivery {
    AtMostOnce,
    AtLeastOnce,
    ExactlyOnce,
}

/// Delivery guarantee asked for the readings, and the highest one accepted
/// for subscriptions.
pub const READING_DELIVERY: Delivery = Delivery::AtLeastOnce;

} // verus!
