//! Decision logic of a Wi-Fi sensor node that publishes temperature readings
//! to an MQTT broker: the station credentials, the Wi-Fi connection keeper and
//! the broker session, each verified and driven by the firmware.

pub mod credentials;
pub mod session;
pub mod session_laws;
pub mod settings;
pub mod wifi;
pub mod wifi_laws;
