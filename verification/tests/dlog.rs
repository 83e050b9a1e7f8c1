use lib::service::dlog::{e, i, w, DLog, I};
use lib::service::peer_log::peer_log_init;

#[test]
fn prefix_is_normalized_width() {
    let d = i(b"pt", 0);
    assert_eq!(d.as_bytes(), b"0000.000 I pt  : ");
}

#[test]
fn subsys_padded_to_four() {
    let d = i(b"heap", 0);
    assert_eq!(d.as_bytes(), b"0000.000 I heap: ");
    let d2 = i(b"hb", 0);
    assert_eq!(d2.as_bytes(), b"0000.000 I hb  : ");
}

#[test]
fn level_char() {
    assert_eq!(w(b"heap", 0).as_bytes(), b"0000.000 W heap: ");
    assert_eq!(e(b"pt", 0).as_bytes(), b"0000.000 E pt  : ");
}

#[test]
fn decimal_u() {
    let mut d = i(b"pt", 0);
    d.s(b"n=");
    d.u(1234);
    assert!(d.as_bytes().ends_with(b"n=1234"));
    let mut z = i(b"pt", 0);
    z.u(0);
    assert!(z.as_bytes().ends_with(b" 0"));
}

#[test]
fn hex_helpers() {
    let mut d = i(b"pt", 0);
    d.s(b"x=");
    d.hx(0x0e);
    d.s(b" v=");
    d.hx16(0x046d);
    assert!(d.as_bytes().ends_with(b"x=0e v=046d"));
}

#[test]
fn u64_decimal() {
    let mut d = i(b"hb", 0);
    d.s(b"c0=");
    d.u64(44504890);
    assert!(d.as_bytes().ends_with(b"c0=44504890"));
}

#[test]
fn timestamp_columns() {
    let d = DLog::new(I, b"usb", 12_345_678);
    assert_eq!(d.as_bytes(), b"0012.345 I usb : ");
}

#[test]
fn line_is_capped_at_128_bytes() {
    let mut d = i(b"pt", 0);
    for _ in 0..20 {
        d.s(b"0123456789");
    }
    assert_eq!(d.as_bytes().len(), 128);
}

#[test]
fn done_logs_prefixed_line() {
    let mut log = peer_log_init(1, 256, 256);
    let mut d = i(b"pt", 0);
    d.s(b"ok");
    d.done(&mut log);
    let mut out = [0u8; 64];
    let n = lib::service::peer_log::pop_into(&mut log, &mut out);
    assert_eq!(&out[..n], b"[B] 0000.000 I pt  : ok\r\n");
    assert_eq!(log.tx_ring.used(), n);
}
