use sniproxy::failure::Failure;
use sniproxy::resolve::{lookup_key, select_address, SocketAddress};

#[test]
fn the_lookup_key_is_the_host_and_port_443() {
    assert_eq!(lookup_key("example.test"), "example.test:443".to_string());
    assert_eq!(lookup_key("a"), "a:443".to_string());
    assert_eq!(lookup_key(""), ":443".to_string());
}

#[test]
fn the_first_address_is_selected() {
    let first = SocketAddress::V4 { octets: 0xCB00_710A, port: 443 };
    let second = SocketAddress::V6 { segments: 1, port: 443, flow_info: 0, scope_id: 0 };
    assert_eq!(select_address(&vec![first, second]), Ok(first));
    assert_eq!(select_address(&vec![second, first]), Ok(second));
    assert_eq!(select_address(&vec![second]), Ok(second));
}

#[test]
fn no_address_is_a_failed_resolution() {
    assert_eq!(select_address(&vec![]), Err(Failure::ResolutionFailed));
}
