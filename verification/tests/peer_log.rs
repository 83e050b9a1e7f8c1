use lib::service::peer_log::{peer_log_init, pop_chunk_8, push, push_received, Ring};

const PREFIX_A: &[u8] = b"[A] ";
const PREFIX_B: &[u8] = b"[B] ";
const OVERFLOW_MSG: &[u8] = b"[peer_log overflow]\r\n";
const TEST_CAP: usize = 1024;

fn ring() -> Ring {
    let mut r = Ring::new();
    r.init(TEST_CAP);
    r
}

fn drain(r: &mut Ring, out: &mut [u8]) -> usize {
    let mut n = 0;
    while n < out.len() {
        match r.pop_byte() {
            Some(b) => {
                out[n] = b;
                n += 1;
            }
            None => break,
        }
    }
    n
}

#[test]
fn unbacked_ring_is_noop() {
    let mut r = Ring::new();
    r.push_local(b"x\n", PREFIX_A);
    r.push_received(b"y");
    assert_eq!(r.used(), 0);
    assert_eq!(r.pop_byte(), None);
}

#[test]
fn empty_ring_pop_returns_none() {
    let mut r = ring();
    assert_eq!(r.pop_byte(), None);
    assert_eq!(r.pop_chunk_8(true), None);
}

#[test]
fn local_push_injects_prefix_at_line_start() {
    let mut r = ring();
    r.push_local(b"hello\n", PREFIX_A);
    let mut out = [0u8; 32];
    let n = drain(&mut r, &mut out);
    assert_eq!(&out[..n], b"[A] hello\r\n");
}

#[test]
fn local_push_multiple_lines_each_prefixed() {
    let mut r = ring();
    r.push_local(b"one\ntwo\n", PREFIX_B);
    let mut out = [0u8; 32];
    let n = drain(&mut r, &mut out);
    assert_eq!(&out[..n], b"[B] one\r\n[B] two\r\n");
}

#[test]
fn local_push_continues_unterminated_line() {
    let mut r = ring();
    r.push_local(b"part1 ", PREFIX_A);
    r.push_local(b"part2\n", PREFIX_A);
    let mut out = [0u8; 32];
    let n = drain(&mut r, &mut out);
    assert_eq!(&out[..n], b"[A] part1 part2\r\n");
}

#[test]
fn received_push_strips_nul_padding() {
    let mut r = ring();
    r.push_received(b"[A] x\n\0\0\0");
    let mut out = [0u8; 32];
    let n = drain(&mut r, &mut out);
    assert_eq!(&out[..n], b"[A] x\n");
}

#[test]
fn pop_chunk_8_full_packet() {
    let mut r = ring();
    r.push_received(b"abcdefgh");
    let chunk = r.pop_chunk_8(false).unwrap();
    assert_eq!(&chunk, b"abcdefgh");
}

#[test]
fn pop_chunk_8_holds_until_full_when_not_partial() {
    let mut r = ring();
    r.push_received(b"abc");
    assert_eq!(r.pop_chunk_8(false), None);
    let chunk = r.pop_chunk_8(true).unwrap();
    assert_eq!(&chunk, b"abc\0\0\0\0\0");
}

#[test]
fn overflow_sets_flag_and_emits_sentinel() {
    let mut r = ring();
    for _ in 0..TEST_CAP {
        r.push_received(b"x");
    }
    assert_eq!(r.used(), TEST_CAP);
    r.push_received(b"y");
    assert!(r.overflow);
    while r.pop_byte().is_some() {}
    r.push_local(b"hi\n", PREFIX_A);
    let mut out = [0u8; 64];
    let n = drain(&mut r, &mut out);
    assert_eq!(&out[..OVERFLOW_MSG.len()], OVERFLOW_MSG);
    assert!(n > OVERFLOW_MSG.len());
    assert!(!r.overflow);
}

#[test]
fn push_local_empty_no_op() {
    let mut r = ring();
    r.push_local(b"", PREFIX_A);
    assert_eq!(r.used(), 0);
}

#[test]
fn pop_byte_wraparound() {
    let mut r = ring();
    for _ in 0..(TEST_CAP - 2) {
        r.push_received(b"a");
    }
    for _ in 0..(TEST_CAP - 2) {
        r.pop_byte();
    }
    r.push_received(b"bc");
    assert_eq!(r.pop_byte(), Some(b'b'));
    assert_eq!(r.pop_byte(), Some(b'c'));
    assert_eq!(r.pop_byte(), None);
}

#[test]
fn local_routes_to_both_received_to_out_only() {
    let mut out = ring();
    let mut tx = ring();
    out.push_local(b"local\n", PREFIX_A);
    tx.push_local(b"local\n", PREFIX_A);
    out.push_received(b"[B] peer\n");
    let mut o = [0u8; 64];
    let no = drain(&mut out, &mut o);
    assert_eq!(&o[..no], b"[A] local\r\n[B] peer\n");
    let mut t = [0u8; 64];
    let nt = drain(&mut tx, &mut t);
    assert_eq!(&t[..nt], b"[A] local\r\n");
}

#[test]
fn global_push_and_received_routing() {
    let mut log = peer_log_init(0, 128, 128);
    push(&mut log, b"a\n");
    push_received(&mut log, b"[B] b\n");
    assert_eq!(log.out_ring.used(), 7 + 6);
    assert_eq!(pop_chunk_8(&mut log, false), None);
    assert_eq!(pop_chunk_8(&mut log, true).unwrap(), *b"[A] a\r\n\0");
}

#[test]
fn crlf_already_present_is_not_doubled() {
    let mut r = ring();
    r.push_local(b"x\r\n", PREFIX_A);
    let mut out = [0u8; 16];
    let n = drain(&mut r, &mut out);
    assert_eq!(&out[..n], b"[A] x\r\n");
}

#[test]
fn pop_into_takes_what_fits() {
    let mut r = ring();
    r.push_received(b"abcdef");
    let mut out = [0u8; 4];
    assert_eq!(r.pop_into(&mut out), 4);
    assert_eq!(&out, b"abcd");
    assert_eq!(r.used(), 2);
}

#[test]
fn received_bytes_come_out_in_order_without_nul() {
    let mut r = ring();
    r.push_received(b"ab\0\0c\n\0");
    let mut out = [0u8; 16];
    let n = drain(&mut r, &mut out);
    assert_eq!(&out[..n], b"abc\n");
}
