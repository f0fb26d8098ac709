use vstd::prelude::*;
use vstd::string::*;

use crate::text::{ssid_to_string, text_equal, utf8_text};

verus! {

/// Connection type of a WiFi profile.
pub const WIRELESS_SETTING_NAME: &'static str = "802-11-wireless";

/// Wireless mode of a profile that runs an access point.
pub const WIRELESS_MODE_AP: &'static str = "ap";

/// IPv4 method of a profile with a static address.
pub const IP4_METHOD_MANUAL: &'static str = "manual";

/// Band of the portal's access point (2.4 GHz).
pub const PORTAL_BAND: &'static str = "bg";

/// Key management of a passphrase-protected portal.
pub const PORTAL_KEY_MGMT: &'static str = "wpa-psk";

/// Prefix length of the portal's gateway address.
pub const PORTAL_PREFIX: u32 = 24;

/// A connection profile stored by the network service, as far as this
/// library reads it. A field is `None` where the profile lacks the setting.
pub struct StoredProfile {
    pub connection_type: Option<String>,
    pub id: Option<String>,
    pub uuid: Option<String>,
    pub wireless_mode: Option<String>,
    pub wireless_ssid: Option<Vec<u8>>,
}

/// The identity of a stored profile.
pub struct ConnectionDetails {
    pub id: String,
    pub uuid: String,
}

impl ConnectionDetails {
    pub fn new(id: String, uuid: String) -> (r: ConnectionDetails)
        ensures
            r.id@ == id@,
            r.uuid@ == uuid@,
    {
        ConnectionDetails { id, uuid }
    }
}

/// The identities of the stored profiles.
pub struct ConnectionList {
    pub connections: Vec<ConnectionDetails>,
}

impl ConnectionList {
    pub fn new(connections: Vec<ConnectionDetails>) -> (r: ConnectionList)
        ensures
            r.connections@ == connections@,
    {
        ConnectionList { connections }
    }
}

/// The `(id, uuid)` pairs of the first `n` profiles, skipping any profile
/// that lacks either.
pub open spec fn details_of(ps: Seq<StoredProfile>, n: int) -> Seq<(Seq<char>, Seq<char>)>
    decreases n,
{
    if n <= 0 {
        seq![]
    } else {
        let rest = details_of(ps, n - 1);
        match (ps[n - 1].id, ps[n - 1].uuid) {
            (Some(id), Some(uuid)) => rest.push((id@, uuid@)),
            _ => rest,
        }
    }
}

pub open spec fn lists_details(r: Seq<ConnectionDetails>, d: Seq<(Seq<char>, Seq<char>)>) -> bool {
    &&& r.len() == d.len()
    &&& forall|i: int| 0 <= i < r.len() ==> (#[trigger] r[i]).id@ == d[i].0 && r[i].uuid@ == d[i].1
}

/// Lists the identities of the stored profiles in their order; a profile
/// without an id or a uuid is left out.
pub fn connection_list(profiles: &Vec<StoredProfile>) -> (r: ConnectionList)
    ensures
        lists_details(r.connections@, details_of(profiles@, profiles@.len() as int)),
{
    let mut connections: Vec<ConnectionDetails> = Vec::new();
    let mut k: usize = 0;
    while k < profiles.len()
        invariant
            k <= profiles@.len(),
            lists_details(connections@, details_of(profiles@, k as int)),
        decreases profiles@.len() - k,
    {
        let p = &profiles[k];
        if let Some(id) = &p.id {
            if let Some(uuid) = &p.uuid {
                connections.push(ConnectionDetails::new(id.clone(), uuid.clone()));
            }
        }
        k = k + 1;
    }
    ConnectionList::new(connections)
}

pub open spec fn opt_text_is(o: Option<String>, t: Seq<char>) -> bool {
    o matches Some(s) && s@ == t
}

fn opt_text_equal(o: &Option<String>, t: &str) -> (r: bool)
    ensures
        r == opt_text_is(*o, t@),
{
    match o {
        Some(s) => text_equal(s.as_str(), t),
        None => false,
    }
}

/// The profile is a WiFi profile.
pub fn is_wifi_connection(p: &StoredProfile) -> (r: bool)
    ensures
        r == opt_text_is(p.connection_type, WIRELESS_SETTING_NAME@),
{
    opt_text_equal(&p.connection_type, WIRELESS_SETTING_NAME)
}

/// The profile's wireless setting runs an access point.
pub fn is_access_point_mode(p: &StoredProfile) -> (r: bool)
    ensures
        r == opt_text_is(p.wireless_mode, WIRELESS_MODE_AP@),
{
    opt_text_equal(&p.wireless_mode, WIRELESS_MODE_AP)
}

/// A WiFi profile in access-point mode.
pub open spec fn is_ap_profile(p: StoredProfile) -> bool {
    opt_text_is(p.connection_type, WIRELESS_SETTING_NAME@) && opt_text_is(p.wireless_mode, WIRELESS_MODE_AP@)
}

pub fn is_access_point_connection(p: &StoredProfile) -> (r: bool)
    ensures
        r == is_ap_profile(*p),
{
    is_wifi_connection(p) && is_access_point_mode(p)
}

/// The profile's SSID reads as the text `ssid`.
pub open spec fn has_ssid(p: StoredProfile, ssid: Seq<char>) -> bool {
    p.wireless_ssid matches Some(b) && utf8_text(b@) == Some(ssid)
}

pub fn is_same_ssid(p: &StoredProfile, ssid: &str) -> (r: bool)
    ensures
        r == has_ssid(*p, ssid@),
{
    match &p.wireless_ssid {
        Some(b) => match ssid_to_string(b.as_slice()) {
            Some(s) => text_equal(s.as_str(), ssid),
            None => false,
        },
        None => false,
    }
}

/// A profile that an earlier run left behind for the access point `ssid`.
pub open spec fn is_stale_profile(p: StoredProfile, ssid: Seq<char>) -> bool {
    is_ap_profile(p) && has_ssid(p, ssid)
}

/// The positions, in increasing order, of the stale profiles among the
/// first `n`.
pub open spec fn stale_positions(ps: Seq<StoredProfile>, ssid: Seq<char>, n: int) -> Seq<usize>
    decreases n,
{
    if n <= 0 {
        seq![]
    } else {
        let rest = stale_positions(ps, ssid, n - 1);
        if is_stale_profile(ps[n - 1], ssid) {
            rest.push((n - 1) as usize)
        } else {
            rest
        }
    }
}

/// The positions of the profiles to delete before the portal for `ssid` is
/// created: every WiFi access-point profile whose SSID is `ssid`.
pub fn stale_ap_profiles(profiles: &Vec<StoredProfile>, ssid: &str) -> (r: Vec<usize>)
    ensures
        r@ == stale_positions(profiles@, ssid@, profiles@.len() as int),
{
    let mut r: Vec<usize> = Vec::new();
    let mut k: usize = 0;
    while k < profiles.len()
        invariant
            k <= profiles@.len(),
            r@ == stale_positions(profiles@, ssid@, k as int),
        decreases profiles@.len() - k,
    {
        if is_access_point_connection(&profiles[k]) && is_same_ssid(&profiles[k], ssid) {
            r.push(k);
        }
        k = k + 1;
    }
    r
}

/// Where no stored profile is a stale portal profile, nothing is deleted.
pub proof fn lemma_no_stale_profiles(ps: Seq<StoredProfile>, ssid: Seq<char>, n: int)
    requires
        n <= ps.len(),
        forall|m: int| 0 <= m < n ==> !is_stale_profile(#[trigger] ps[m], ssid),
    ensures
        stale_positions(ps, ssid, n) == Seq::<usize>::empty(),
    decreases n,
{
    if n > 0 {
        lemma_no_stale_profiles(ps, ssid, n - 1);
    }
}

/// A profile without an id or a uuid adds nothing to the listing.
pub proof fn lemma_incomplete_profile_skipped(ps: Seq<StoredProfile>, n: int)
    requires
        0 < n <= ps.len(),
        ps[n - 1].id is None || ps[n - 1].uuid is None,
    ensures
        details_of(ps, n) == details_of(ps, n - 1),
{
}

/// WPA-PSK security of a portal.
pub struct PortalSecurity {
    pub key_mgmt: String,
    pub psk: String,
}

/// The profile of the portal's access point, to be handed to the network
/// service.
pub struct ApProfile {
    pub connection_type: String,
    pub id: String,
    pub autoconnect: bool,
    pub interface_name: String,
    pub ssid: Vec<u8>,
    pub band: String,
    pub hidden: bool,
    pub mode: String,
    pub security: Option<PortalSecurity>,
    pub address: String,
    pub prefix: u32,
    pub ip4_method: String,
}

/// Describes the portal's profile: a WiFi profile named after `ssid`, bound
/// to `interface`, not connected automatically, broadcasting `ssid` on
/// 2.4 GHz in access-point mode, secured with WPA-PSK when a passphrase is
/// given and open otherwise, with the static address `address`/24.
pub fn create_ap_connection(
    interface: &str,
    ssid: &str,
    address: &str,
    passphrase: &Option<String>,
) -> (r: ApProfile)
    ensures
        r.connection_type@ == WIRELESS_SETTING_NAME@,
        r.id@ == ssid@,
        !r.autoconnect,
        r.interface_name@ == interface@,
        r.ssid@ == ssid.spec_bytes(),
        r.band@ == PORTAL_BAND@,
        !r.hidden,
        r.mode@ == WIRELESS_MODE_AP@,
        passphrase is None ==> r.security is None,
        passphrase matches Some(pw) ==> (r.security matches Some(sec) && sec.key_mgmt@ == PORTAL_KEY_MGMT@
            && sec.psk@ == pw@),
        r.address@ == address@,
        r.prefix == PORTAL_PREFIX,
        r.ip4_method@ == IP4_METHOD_MANUAL@,
{
    let security = match passphrase {
        Some(pw) => Some(PortalSecurity { key_mgmt: PORTAL_KEY_MGMT.to_owned(), psk: pw.clone() }),
        None => None,
    };
    ApProfile {
        connection_type: WIRELESS_SETTING_NAME.to_owned(),
        id: ssid.to_owned(),
        autoconnect: false,
        interface_name: interface.to_owned(),
        ssid: ssid.as_bytes_vec(),
        band: PORTAL_BAND.to_owned(),
        hidden: false,
        mode: WIRELESS_MODE_AP.to_owned(),
        security,
        address: address.to_owned(),
        prefix: PORTAL_PREFIX,
        ip4_method: IP4_METHOD_MANUAL.to_owned(),
    }
}

} // verus!
