use vstd::prelude::*;

verus! {

/// SSID of the portal unless one is given.
pub const DEFAULT_SSID: &'static str = "WiFiConnect";

/// Gateway address of the portal unless one is given.
pub const DEFAULT_GATEWAY: &'static str = "192.168.42.1";

/// How the portal is set up.
pub struct Opts {
    /// SSID of the portal's access point.
    pub ssid: String,
    /// WPA2 passphrase; the portal is open without one.
    pub password: Option<String>,
    /// IPv4 address of the portal's gateway.
    pub gateway: String,
    /// The WiFi interface to use; the first managed WiFi device otherwise.
    pub interface: Option<String>,
}

impl Opts {
    /// The setup with every default: SSID `WiFiConnect`, no passphrase,
    /// gateway `192.168.42.1`, any WiFi device.
    pub fn defaults() -> (r: Opts)
        ensures
            r.ssid@ == DEFAULT_SSID@,
            r.password is None,
            r.gateway@ == DEFAULT_GATEWAY@,
            r.interface is None,
    {
        Opts {
            ssid: DEFAULT_SSID.to_owned(),
            password: None,
            gateway: DEFAULT_GATEWAY.to_owned(),
            interface: None,
        }
    }
}

} // verus!
