use vstd::prelude::*;
use vstd::string::StringSliceAdditionalSpecFns;

verus! {

/// Capacity, in bytes, of the station SSID buffer of the Wi-Fi driver.
pub const SSID_CAPACITY: usize = 32;

/// Capacity, in bytes, of the station passphrase buffer of the Wi-Fi driver.
pub const PASSPHRASE_CAPACITY: usize = 64;

#[verifier::external_type_specification]
#[verifier::external_body]
pub struct ExBoundedString<const N: usize>(heapless::String<N>);

/// The characters held by an SSID buffer.
pub uninterp spec fn ssid_chars(s: heapless::String<32>) -> Seq<char>;

/// The characters held by a passphrase buffer.
pub uninterp spec fn passphrase_chars(s: heapless::String<64>) -> Seq<char>;

/// Calls `<heapless::String<32> as TryFrom<&str>>::try_from`. The heapless
/// source copies the UTF-8 bytes of `s` when they fit in the 32-byte buffer
/// and fails otherwise; the contract claims exactly that.
#[verifier::external_body]
fn ssid_buffer(s: &str) -> (r: Result<heapless::String<32>, ()>)
    ensures
        r is Ok <==> s.spec_bytes().len() <= 32,
        r matches Ok(b) ==> ssid_chars(b) == s@,
{
    heapless::String::try_from(s)
}

/// Calls `<heapless::String<64> as TryFrom<&str>>::try_from`. The heapless
/// source copies the UTF-8 bytes of `s` when they fit in the 64-byte buffer
/// and fails otherwise; the contract claims exactly that.
#[verifier::external_body]
fn passphrase_buffer(s: &str) -> (r: Result<heapless::String<64>, ()>)
    ensures
        r is Ok <==> s.spec_bytes().len() <= 64,
        r matches Ok(b) ==> passphrase_chars(b) == s@,
{
    heapless::String::try_from(s)
}

/// Station credentials in the fixed-capacity form the Wi-Fi driver takes.
pub struct WifiCredentials {
    pub ssid: heapless::String<32>,
    pub passphrase: heapless::String<64>,
}

/// Why credentials could not be put into the driver's buffers.
#[derive(Debug, Clone, Copy, PartialEq, Eq)]
pub enum CredentialError {
    /// The SSID is longer than 32 bytes of UTF-8.
    SsidTooLong,
    /// The passphrase is longer than 64 bytes of UTF-8.
    PassphraseTooLong,
}

/// Puts the SSID, then the passphrase, into the driver's buffers.
pub fn wifi_credentials(ssid: &str, passphrase: &str) -> (r: Result<WifiCredentials, CredentialError>)
    ensures
        ssid.spec_bytes().len() > SSID_CAPACITY ==> r == Err::<WifiCredentials, _>(
            CredentialError::SsidTooLong,
        ),
        ssid.spec_bytes().len() <= SSID_CAPACITY && passphrase.spec_bytes().len()
            > PASSPHRASE_CAPACITY ==> r == Err::<WifiCredentials, _>(
            CredentialError::PassphraseTooLong,
        ),
        r is Ok <==> (ssid.spec_bytes().len() <= SSID_CAPACITY
            && passphrase.spec_bytes().len() <= PASSPHRASE_CAPACITY),
        r matches Ok(c) ==> ssid_chars(c.ssid) == ssid@ && passphrase_chars(c.passphrase)
            == passphrase@,
{
    let s = match ssid_buffer(ssid) {
        Ok(b) => b,
        Err(_) => return Err(CredentialError::SsidTooLong),
    };
    let p = match passphrase_buffer(passphrase) {
        Ok(b) => b,
        Err(_) => return Err(CredentialError::PassphraseTooLong),
    };
    Ok(WifiCredentials { ssid: s, passphrase: p })
}

} // verus!
