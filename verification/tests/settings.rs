use ne_g3::adp::TExtendedAddress;
use ne_g3::app_config::{
    local_ipv6_add_from_pan_id_short_addr, ula_ipv6_addr_from_pan_id_extended_addr,
    ula_ipv6_addr_from_pan_id_short_addr, Mode,
};

#[test]
fn link_local_address() {
    let a = local_ipv6_add_from_pan_id_short_addr(&[0xfe, 0x80, 0, 0, 0, 0, 0, 0], 0x781D, 0x0001)
        .unwrap();
    assert_eq!(a, [0xfe, 0x80, 0, 0, 0, 0, 0, 0, 0x78, 0x1D, 0x00, 0xff, 0xfe, 0x00, 0x00, 0x01]);
    assert!(local_ipv6_add_from_pan_id_short_addr(&[0xfe, 0x80], 1, 1).is_none());
}

#[test]
fn unique_local_addresses() {
    let net = [0xfd, 0, 0, 0, 0, 2, 0x78, 0x1d];
    let host = [0x11, 0x22, 0x33, 0x44, 0x55, 0x66];
    let a = ula_ipv6_addr_from_pan_id_short_addr(&net, &host, 0x781D, 0x0203).unwrap();
    assert_eq!(&a[..8], &net);
    assert_eq!(&a[8..14], &host);
    assert_eq!(&a[14..], &[0x02, 0x03]);
    assert!(ula_ipv6_addr_from_pan_id_short_addr(&net, &host[..5], 0, 0).is_none());
    let e = TExtendedAddress([1, 2, 3, 4, 5, 6, 7, 8]);
    let b = ula_ipv6_addr_from_pan_id_extended_addr(&net, 0x781D, &e).unwrap();
    assert_eq!(&b[8..], &[1, 2, 3, 4, 5, 6, 7, 8]);
    assert!(ula_ipv6_addr_from_pan_id_extended_addr(&net[..7], 0, &e).is_none());
}

#[test]
fn modes() {
    assert_eq!(Mode::Coordinator.into_primitive(), 0);
    assert_eq!(Mode::try_from_primitive(1), Some(Mode::Modem));
    assert_eq!(Mode::try_from_primitive(2), None);
}
