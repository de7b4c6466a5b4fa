//! The network configuration handed to the engine when a mode is started, and
//! the copy of text into its fixed-size, nul-terminated fields.
use vstd::prelude::*;
use vstd::string::StringSliceAdditionalSpecFns;

verus! {

/// `wifi_mode` of an access point.
pub const WIFI_MODE_SOFT_AP: i8 = 0;
/// `wifi_mode` of a station.
pub const WIFI_MODE_STATION: i8 = 1;
/// `dhcp_mode`: addresses are configured by hand.
pub const DHCP_DISABLE: i8 = 0;
/// `dhcp_mode`: the address is asked of a server.
pub const DHCP_CLIENT: i8 = 1;
/// `dhcp_mode`: addresses are handed out from the pool.
pub const DHCP_SERVER: i8 = 2;
/// Milliseconds between attempts of a station to rejoin its network.
pub const STATION_RETRY_INTERVAL: i32 = 1000;
/// Address of an access point on its own network.
pub const AP_LOCAL_ADDR: &'static str = "192.168.0.1";
/// Netmask of an access point's network.
pub const AP_NET_MASK: &'static str = "255.255.255.0";
/// First address an access point hands out.
pub const AP_POOL_START: &'static str = "192.168.0.10";
/// Last address an access point hands out.
pub const AP_POOL_END: &'static str = "192.168.0.177";

/// How many bytes of a text of `len` bytes fit in a field of `cap` bytes that
/// must keep room for the terminating nul.
pub open spec fn copied_len(cap: int, len: int) -> int {
    if cap <= 0 {
        0
    } else if len < cap - 1 {
        len
    } else {
        cap - 1
    }
}

/// `field` after `text` was copied into it: the bytes that fit, then a nul, then
/// what the field held before.
pub open spec fn copy_into(field: Seq<i8>, text: Seq<u8>) -> Seq<i8> {
    let n = copied_len(field.len() as int, text.len() as int);
    Seq::new(
        field.len(),
        |i: int|
            if i < n {
                text[i] as i8
            } else if i == n {
                0i8
            } else {
                field[i]
            },
    )
}

/// A field of `cap` zero bytes.
pub open spec fn zeros(cap: nat) -> Seq<i8> {
    Seq::new(cap, |i: int| 0i8)
}

/// A field of `cap` bytes that holds `text`, truncated and terminated.
pub open spec fn c_field(cap: nat, text: Seq<u8>) -> Seq<i8> {
    copy_into(zeros(cap), text)
}

/// Copies as much of `text` into `slice` as leaves room for a terminating nul,
/// then writes the nul. Bytes after the nul are left as they were; an empty
/// slice is left alone.
pub fn strcpy(slice: &mut [i8], text: &str)
    ensures
        final(slice)@ == copy_into(old(slice)@, text.spec_bytes()),
{
    let bytes = text.as_bytes();
    let cap = slice.len();
    if cap == 0 {
        assert(final(slice)@ =~= copy_into(old(slice)@, text.spec_bytes()));
        return;
    }
    let n: usize = if bytes.len() < cap - 1 {
        bytes.len()
    } else {
        cap - 1
    };
    let mut i: usize = 0;
    while i < n
        invariant
            bytes@ == text.spec_bytes(),
            cap == slice@.len(),
            cap == old(slice)@.len(),
            n == copied_len(cap as int, bytes@.len() as int),
            i <= n,
            n < cap,
            forall|j: int| 0 <= j < i ==> slice@[j] == bytes@[j] as i8,
            forall|j: int| i <= j < cap ==> slice@[j] == old(slice)@[j],
        decreases n - i,
    {
        slice[i] = bytes[i] as i8;
        i = i + 1;
    }
    slice[n] = 0;
    assert(slice@ =~= copy_into(old(slice)@, text.spec_bytes()));
}

/// A field that receives text can never be overrun: whatever the text's length,
/// the field keeps its capacity, holds at most `cap - 1` bytes of the text, and
/// the byte after them is the terminating nul. A text that does not fit is cut
/// to exactly `cap - 1` bytes.
pub proof fn lemma_truncated_and_terminated(cap: nat, text: Seq<u8>)
    requires
        cap >= 1,
    ensures
        c_field(cap, text).len() == cap,
        copied_len(cap as int, text.len() as int) <= cap - 1,
        c_field(cap, text)[copied_len(cap as int, text.len() as int)] == 0,
        forall|i: int|
            0 <= i < copied_len(cap as int, text.len() as int) ==> c_field(cap, text)[i] == text[i] as i8,
        text.len() >= cap ==> copied_len(cap as int, text.len() as int) == cap - 1,
        text.len() < cap ==> copied_len(cap as int, text.len() as int) == text.len(),
{
}

/// The request that starts a network interface.
pub struct NetworkConfig {
    pub wifi_mode: i8,
    pub wifi_ssid: [i8; 32],
    pub wifi_key: [i8; 32],
    pub local_ip_addr: [i8; 16],
    pub net_mask: [i8; 16],
    pub gateway_ip_addr: [i8; 16],
    pub dns_server_ip_addr: [i8; 16],
    pub dhcp_mode: i8,
    pub address_pool_start: [i8; 16],
    pub address_pool_end: [i8; 16],
    pub wifi_retry_interval: i32,
}

impl NetworkConfig {
    /// Every field zero.
    pub open spec fn is_zeroed(&self) -> bool {
        &&& self.wifi_mode == 0
        &&& self.wifi_ssid@ == zeros(32)
        &&& self.wifi_key@ == zeros(32)
        &&& self.local_ip_addr@ == zeros(16)
        &&& self.net_mask@ == zeros(16)
        &&& self.gateway_ip_addr@ == zeros(16)
        &&& self.dns_server_ip_addr@ == zeros(16)
        &&& self.dhcp_mode == 0
        &&& self.address_pool_start@ == zeros(16)
        &&& self.address_pool_end@ == zeros(16)
        &&& self.wifi_retry_interval == 0
    }

    /// A station that joins network `ssid` with passphrase `key`, takes its
    /// address by DHCP and retries joining every second; the other fields zero.
    pub open spec fn is_station(&self, ssid: Seq<u8>, key: Seq<u8>) -> bool {
        &&& self.wifi_mode == WIFI_MODE_STATION
        &&& self.wifi_ssid@ == c_field(32, ssid)
        &&& self.wifi_key@ == c_field(32, key)
        &&& self.local_ip_addr@ == zeros(16)
        &&& self.net_mask@ == zeros(16)
        &&& self.gateway_ip_addr@ == zeros(16)
        &&& self.dns_server_ip_addr@ == zeros(16)
        &&& self.dhcp_mode == DHCP_CLIENT
        &&& self.address_pool_start@ == zeros(16)
        &&& self.address_pool_end@ == zeros(16)
        &&& self.wifi_retry_interval == STATION_RETRY_INTERVAL
    }

    /// An access point for network `ssid` with passphrase `key`, at
    /// `AP_LOCAL_ADDR` with netmask `AP_NET_MASK`, handing out addresses from
    /// `AP_POOL_START` to `AP_POOL_END`; the other fields zero.
    pub open spec fn is_soft_ap(&self, ssid: Seq<u8>, key: Seq<u8>) -> bool {
        &&& self.wifi_mode == WIFI_MODE_SOFT_AP
        &&& self.wifi_ssid@ == c_field(32, ssid)
        &&& self.wifi_key@ == c_field(32, key)
        &&& self.local_ip_addr@ == c_field(16, AP_LOCAL_ADDR.spec_bytes())
        &&& self.net_mask@ == c_field(16, AP_NET_MASK.spec_bytes())
        &&& self.gateway_ip_addr@ == zeros(16)
        &&& self.dns_server_ip_addr@ == zeros(16)
        &&& self.dhcp_mode == DHCP_SERVER
        &&& self.address_pool_start@ == c_field(16, AP_POOL_START.spec_bytes())
        &&& self.address_pool_end@ == c_field(16, AP_POOL_END.spec_bytes())
        &&& self.wifi_retry_interval == 0
    }

    /// A configuration with every field zero.
    pub fn zeroed() -> (r: NetworkConfig)
        ensures
            r.is_zeroed(),
    {
        let r = NetworkConfig {
            wifi_mode: 0,
            wifi_ssid: [0; 32],
            wifi_key: [0; 32],
            local_ip_addr: [0; 16],
            net_mask: [0; 16],
            gateway_ip_addr: [0; 16],
            dns_server_ip_addr: [0; 16],
            dhcp_mode: 0,
            address_pool_start: [0; 16],
            address_pool_end: [0; 16],
            wifi_retry_interval: 0,
        };
        assert(r.wifi_ssid@ =~= zeros(32));
        assert(r.local_ip_addr@ =~= zeros(16));
        r
    }

    /// The configuration of a station joining `ssid` with `password`.
    pub fn station(ssid: &str, password: &str) -> (r: NetworkConfig)
        ensures
            r.is_station(ssid.spec_bytes(), password.spec_bytes()),
    {
        let mut r = NetworkConfig::zeroed();
        r.wifi_mode = WIFI_MODE_STATION;
        strcpy(&mut r.wifi_ssid, ssid);
        strcpy(&mut r.wifi_key, password);
        r.dhcp_mode = DHCP_CLIENT;
        r.wifi_retry_interval = STATION_RETRY_INTERVAL;
        r
    }

    /// The configuration of an access point for `ssid` with `password`.
    pub fn soft_ap(ssid: &str, password: &str) -> (r: NetworkConfig)
        ensures
            r.is_soft_ap(ssid.spec_bytes(), password.spec_bytes()),
    {
        let mut r = NetworkConfig::zeroed();
        r.wifi_mode = WIFI_MODE_SOFT_AP;
        strcpy(&mut r.wifi_ssid, ssid);
        strcpy(&mut r.wifi_key, password);
        strcpy(&mut r.local_ip_addr, AP_LOCAL_ADDR);
        strcpy(&mut r.net_mask, AP_NET_MASK);
        strcpy(&mut r.address_pool_start, AP_POOL_START);
        strcpy(&mut r.address_pool_end, AP_POOL_END);
        r.dhcp_mode = DHCP_SERVER;
        r
    }
}

} // verus!
