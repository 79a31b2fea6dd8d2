use ne_g3::tun_interface::{first_free_utun, Mode};

#[test]
fn mode_numbers() {
    assert_eq!(Mode::Tun.into_primitive(), 1);
    assert_eq!(Mode::Tap.into_primitive(), 2);
}

#[test]
fn first_free_utun_empty_list() {
    assert_eq!(first_free_utun(b""), Some(0));
    assert_eq!(first_free_utun(b"lo0 en0 gif0\n"), Some(0));
}

#[test]
fn first_free_utun_skips_used_units() {
    assert_eq!(first_free_utun(b"lo0 utun0 en0\nutun1 utun3"), Some(2));
    assert_eq!(first_free_utun(b"utun0 utun1 utun2"), Some(3));
}

#[test]
fn first_free_utun_reads_names_as_parse_does() {
    // every "utun" is taken out before the number is read
    assert_eq!(first_free_utun(b"utun0 utunutun1"), Some(2));
    // a plus sign is accepted by the number parser
    assert_eq!(first_free_utun(b"utun+0"), Some(1));
    // names that do not read as a number are ignored
    assert_eq!(first_free_utun(b"utun utunx utun0a"), Some(0));
    // only names that start with "utun" count
    assert_eq!(first_free_utun(b"xutun0"), Some(0));
}

#[test]
fn first_free_utun_all_taken() {
    let mut list = String::new();
    for i in 0..99 {
        list.push_str(&format!("utun{} ", i));
    }
    assert_eq!(first_free_utun(list.as_bytes()), None);
    list.push_str("utun120");
    assert_eq!(first_free_utun(list.as_bytes()), None);
}
