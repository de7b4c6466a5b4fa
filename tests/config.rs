use mxchip_wnet::config::{
    DHCP_CLIENT, DHCP_SERVER, STATION_RETRY_INTERVAL, WIFI_MODE_SOFT_AP, WIFI_MODE_STATION,
};
use mxchip_wnet::status::MXCHIP_SUCCESS;
use mxchip_wnet::{strcpy, Mode, MxChip, NetworkConfig};

fn field(bytes: &[u8], cap: usize) -> Vec<i8> {
    let mut v = vec![0i8; cap];
    for (i, b) in bytes.iter().enumerate() {
        v[i] = *b as i8;
    }
    v
}

#[test]
fn strcpy_copies_and_terminates() {
    let mut buf = [7i8; 8];
    strcpy(&mut buf, "abc");
    assert_eq!(buf, [97, 98, 99, 0, 7, 7, 7, 7]);
}

#[test]
fn strcpy_truncates_long_text() {
    let mut buf = [7i8; 4];
    strcpy(&mut buf, "abcdef");
    assert_eq!(buf, [97, 98, 99, 0]);
}

#[test]
fn strcpy_exact_fit_leaves_room_for_nul() {
    let mut buf = [7i8; 4];
    strcpy(&mut buf, "abcd");
    assert_eq!(buf, [97, 98, 99, 0]);
    let mut one = [5i8; 1];
    strcpy(&mut one, "abcd");
    assert_eq!(one, [0]);
}

#[test]
fn strcpy_into_empty_slice_does_nothing() {
    let mut empty: [i8; 0] = [];
    strcpy(&mut empty, "abc");
    assert_eq!(empty.len(), 0);
}

#[test]
fn strcpy_keeps_bytes_of_multibyte_text() {
    let mut buf = [1i8; 6];
    strcpy(&mut buf, "é!");
    assert_eq!(buf, [0xC3u8 as i8, 0xA9u8 as i8, 33, 0, 1, 1]);
}

#[test]
fn long_credential_is_truncated_to_capacity_minus_one() {
    let long = "s".repeat(40);
    let config = NetworkConfig::station(&long, "pw");
    assert_eq!(config.wifi_ssid[..31].to_vec(), vec![b's' as i8; 31]);
    assert_eq!(config.wifi_ssid[31], 0);
    assert_eq!(config.wifi_key.to_vec(), field(b"pw", 32));
}

#[test]
fn station_config_fields() {
    let mut chip = MxChip::from_init_status(MXCHIP_SUCCESS).ok().unwrap();
    let c = chip.station_mode("myssid", "mypassword");
    assert_eq!(chip.mode(), Mode::Station);
    assert_eq!(c.wifi_mode, WIFI_MODE_STATION);
    assert_eq!(c.wifi_ssid.to_vec(), field(b"myssid", 32));
    assert_eq!(c.wifi_key.to_vec(), field(b"mypassword", 32));
    assert_eq!(c.dhcp_mode, DHCP_CLIENT);
    assert_eq!(c.wifi_retry_interval, STATION_RETRY_INTERVAL);
    assert_eq!(c.wifi_retry_interval, 1000);
    assert_eq!(c.local_ip_addr, [0i8; 16]);
    assert_eq!(c.address_pool_end, [0i8; 16]);
}

#[test]
fn soft_ap_config_fields() {
    let mut chip = MxChip::from_init_status(MXCHIP_SUCCESS).ok().unwrap();
    let c = chip.soft_ap_mode("myap", "secret");
    assert_eq!(chip.mode(), Mode::SoftAp);
    assert_eq!(c.wifi_mode, WIFI_MODE_SOFT_AP);
    assert_eq!(c.wifi_ssid.to_vec(), field(b"myap", 32));
    assert_eq!(c.wifi_key.to_vec(), field(b"secret", 32));
    assert_eq!(c.local_ip_addr.to_vec(), field(b"192.168.0.1", 16));
    assert_eq!(c.net_mask.to_vec(), field(b"255.255.255.0", 16));
    assert_eq!(c.address_pool_start.to_vec(), field(b"192.168.0.10", 16));
    assert_eq!(c.address_pool_end.to_vec(), field(b"192.168.0.177", 16));
    assert_eq!(c.gateway_ip_addr, [0i8; 16]);
    assert_eq!(c.dhcp_mode, DHCP_SERVER);
    assert_eq!(c.wifi_retry_interval, 0);
}

#[test]
fn zeroed_config_is_all_zero() {
    let c = NetworkConfig::zeroed();
    assert_eq!(c.wifi_mode, 0);
    assert_eq!(c.wifi_ssid, [0i8; 32]);
    assert_eq!(c.dns_server_ip_addr, [0i8; 16]);
    assert_eq!(c.wifi_retry_interval, 0);
}
