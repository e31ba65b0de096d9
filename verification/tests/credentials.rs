use gophers_fishbowl::credentials::{wifi_credentials, CredentialError};

#[test]
fn station_credentials_fit_the_driver_buffers() {
    let c = wifi_credentials("tribersr01", "password").expect("credentials fit");
    assert_eq!(c.ssid.as_str(), "tribersr01");
    assert_eq!(c.passphrase.as_str(), "password");
}

#[test]
fn ssid_of_exactly_thirty_two_bytes_is_accepted() {
    let ssid = "a".repeat(32);
    let c = wifi_credentials(&ssid, "").expect("fits");
    assert_eq!(c.ssid.as_str(), ssid.as_str());
    assert_eq!(c.passphrase.as_str(), "");
}

#[test]
fn ssid_longer_than_thirty_two_bytes_is_refused() {
    let ssid = "a".repeat(33);
    assert_eq!(wifi_credentials(&ssid, "password").err(), Some(CredentialError::SsidTooLong));
}

#[test]
fn ssid_is_measured_in_utf8_bytes() {
    // Eleven characters of three bytes each: 33 bytes.
    let ssid = "\u{20ac}".repeat(11);
    assert_eq!(ssid.chars().count(), 11);
    assert_eq!(wifi_credentials(&ssid, "pw").err(), Some(CredentialError::SsidTooLong));
    let shorter = "\u{20ac}".repeat(10);
    let c = wifi_credentials(&shorter, "pw").expect("30 bytes fit");
    assert_eq!(c.ssid.as_str(), shorter.as_str());
}

#[test]
fn passphrase_of_sixty_four_bytes_is_accepted() {
    let pw = "p".repeat(64);
    let c = wifi_credentials("net", &pw).expect("fits");
    assert_eq!(c.passphrase.as_str(), pw.as_str());
}

#[test]
fn passphrase_longer_than_sixty_four_bytes_is_refused() {
    let pw = "p".repeat(65);
    assert_eq!(wifi_credentials("net", &pw).err(), Some(CredentialError::PassphraseTooLong));
}

#[test]
fn ssid_is_checked_before_the_passphrase() {
    let ssid = "s".repeat(40);
    let pw = "p".repeat(80);
    assert_eq!(wifi_credentials(&ssid, &pw).err(), Some(CredentialError::SsidTooLong));
}
