//! Debug log line builder. Every line has the same column layout:
//! `<sec:4>.<ms:3> <level> <subsys padded to 4>: ` followed by the event,
//! and is at most 128 bytes long; what does not fit is dropped.
use vstd::prelude::*;
use crate::service::peer_log::{model_push_local, push, role_prefix, PeerLog};

verus! {

/// Longest line kept.
pub const LINE_MAX: usize = 128;
/// Width of the subsystem column.
pub const SUBSYS_W: usize = 4;
/// Width of the seconds column.
pub const SEC_W: usize = 4;

/// Information level.
pub const I: u8 = 0x49;
/// Warning level.
pub const W: u8 = 0x57;
/// Error level.
pub const E: u8 = 0x45;

/// A log line being built.
pub struct DLog {
    buf: [u8; 128],
    len: usize,
}

impl View for DLog {
    type V = Seq<u8>;

    closed spec fn view(&self) -> Seq<u8> {
        self.buf@.take(self.len as int)
    }
}

/// Bytes kept of a line: the first 128.
pub open spec fn cap_line(s: Seq<u8>) -> Seq<u8> {
    if s.len() <= 128 { s } else { s.take(128) }
}

/// Decimal digits of a number, most significant first.
pub open spec fn dec(v: nat) -> Seq<u8>
    decreases v,
{
    if v < 10 { seq![(48 + v) as u8] } else { dec(v / 10).push((48 + v % 10) as u8) }
}

/// A hex digit.
pub open spec fn hex_digit(v: int) -> u8 {
    if v < 10 { (48 + v) as u8 } else { (87 + v) as u8 }
}

/// Two hex digits of a byte.
pub open spec fn hex2(v: u8) -> Seq<u8> {
    seq![hex_digit(v as int / 16), hex_digit(v as int % 16)]
}

/// `n` copies of a byte.
pub open spec fn fill(b: u8, n: int) -> Seq<u8> {
    Seq::new(if n > 0 { n as nat } else { 0 }, |i: int| b)
}

/// A number right-aligned in `width` columns, zero padded.
pub open spec fn zero_padded(v: nat, width: int) -> Seq<u8> {
    fill(48, width - dec(v).len()) + dec(v)
}

/// Three digits of a number below a thousand.
pub open spec fn three_digits(v: nat) -> Seq<u8> {
    seq![(48 + (v / 100) % 10) as u8, (48 + (v / 10) % 10) as u8, (48 + v % 10) as u8]
}

/// The column prefix of a line logged at `us` microseconds.
pub open spec fn line_prefix(level: u8, subsys: Seq<u8>, us: u32) -> Seq<u8> {
    zero_padded((us / 1_000_000) as nat, 4) + seq![0x2Eu8] + three_digits(((us % 1_000_000) / 1000) as nat)
        + seq![0x20u8, level, 0x20u8] + subsys + fill(0x20, 4 - subsys.len()) + seq![0x3Au8, 0x20u8]
}

proof fn lemma_cap_line_append(l: Seq<u8>, a: Seq<u8>, b: Seq<u8>)
    requires
        l.len() <= 128,
    ensures
        cap_line(cap_line(l + a) + b) == cap_line(l + a + b),
{
    if (l + a).len() > 128 {
        assert(cap_line(l + a) + b =~= (l + a).take(128) + b);
        assert((cap_line(l + a) + b).take(128) =~= (l + a + b).take(128));
    }
}

proof fn lemma_dec_len_u32(v: nat)
    requires
        v < 10_000_000_000,
    ensures
        dec(v).len() <= 10,
{
    reveal_with_fuel(dec, 11);
}

impl DLog {
    /// The line so far never exceeds the limit.
    pub closed spec fn wf(&self) -> bool {
        self.len <= 128
    }

    fn raw(&mut self, b: u8)
        requires
            old(self).wf(),
        ensures
            final(self).wf(),
            final(self)@ == cap_line(old(self)@.push(b)),
    {
        if self.len < LINE_MAX {
            self.buf[self.len] = b;
            self.len = self.len + 1;
            assert(self@ =~= old(self)@.push(b));
        } else {
            assert(old(self)@.push(b).take(128) =~= old(self)@);
        }
    }

    /// Append bytes as they are.
    pub fn s(&mut self, bytes: &[u8])
        requires
            old(self).wf(),
        ensures
            final(self).wf(),
            final(self)@ == cap_line(old(self)@ + bytes@),
    {
        let mut i: usize = 0;
        assert(old(self)@ + bytes@.take(0) =~= old(self)@);
        while i < bytes.len()
            invariant
                self.wf(),
                i <= bytes@.len(),
                old(self).wf(),
                self@ == cap_line(old(self)@ + bytes@.take(i as int)),
            decreases bytes@.len() - i,
        {
            self.raw(bytes[i]);
            proof {
                lemma_cap_line_append(old(self)@, bytes@.take(i as int), seq![bytes[i as int]]);
                assert(bytes@.take(i as int) + seq![bytes[i as int]] =~= bytes@.take(i as int + 1));
                assert(self@ == cap_line(cap_line(old(self)@ + bytes@.take(i as int)) + seq![bytes[i as int]]));
            }
            i = i + 1;
        }
        assert(bytes@.take(i as int) =~= bytes@);
    }

    fn dec32(&mut self, v: u32)
        requires
            old(self).wf(),
        ensures
            final(self).wf(),
            final(self)@ == cap_line(old(self)@ + dec(v as nat)),
        decreases v,
    {
        if v >= 10 {
            self.dec32(v / 10);
        }
        let d = 48 + (v % 10) as u8;
        proof {
            if v >= 10 {
                lemma_cap_line_append(old(self)@, dec((v / 10) as nat), seq![d]);
                assert(self@.push(d) =~= self@ + seq![d]);
                assert(old(self)@ + dec((v / 10) as nat) + seq![d] =~= old(self)@ + dec(v as nat));
            } else {
                assert(old(self)@ + dec(v as nat) =~= old(self)@.push(d));
                assert(cap_line(old(self)@ + dec(0)) == cap_line(old(self)@ + dec(0)));
                assert(self@ == cap_line(old(self)@ + Seq::<u8>::empty())) by {
                    assert(old(self)@ + Seq::<u8>::empty() =~= old(self)@);
                }
            }
        }
        self.raw(d);
    }

    fn dec64(&mut self, v: u64)
        requires
            old(self).wf(),
        ensures
            final(self).wf(),
            final(self)@ == cap_line(old(self)@ + dec(v as nat)),
        decreases v,
    {
        if v >= 10 {
            self.dec64(v / 10);
        }
        let d = 48 + (v % 10) as u8;
        proof {
            if v >= 10 {
                lemma_cap_line_append(old(self)@, dec((v / 10) as nat), seq![d]);
                assert(self@.push(d) =~= self@ + seq![d]);
                assert(old(self)@ + dec((v / 10) as nat) + seq![d] =~= old(self)@ + dec(v as nat));
            } else {
                assert(old(self)@ + dec(v as nat) =~= old(self)@.push(d));
                assert(self@ == cap_line(old(self)@ + Seq::<u8>::empty())) by {
                    assert(old(self)@ + Seq::<u8>::empty() =~= old(self)@);
                }
            }
        }
        self.raw(d);
    }

    /// Append a 32-bit number in decimal.
    pub fn u(&mut self, v: u32)
        requires
            old(self).wf(),
        ensures
            final(self).wf(),
            final(self)@ == cap_line(old(self)@ + dec(v as nat)),
    {
        self.dec32(v);
    }

    /// Append a 64-bit number in decimal.
    pub fn u64(&mut self, v: u64)
        requires
            old(self).wf(),
        ensures
            final(self).wf(),
            final(self)@ == cap_line(old(self)@ + dec(v as nat)),
    {
        self.dec64(v);
    }

    fn uzp(&mut self, v: u32, width: usize)
        requires
            old(self).wf(),
        ensures
            final(self).wf(),
            final(self)@ == cap_line(old(self)@ + zero_padded(v as nat, width as int)),
    {
        let mut digits: usize = 1;
        let mut x = v;
        proof { lemma_dec_len_u32(v as nat); }
        while x >= 10
            invariant
                1 <= digits,
                x <= v,
                dec(v as nat).len() <= 10,
                dec(x as nat).len() >= 1,
                digits - 1 + dec(x as nat).len() == dec(v as nat).len(),
            decreases x,
        {
            assert(dec(x as nat).len() == dec((x / 10) as nat).len() + 1);
            x = x / 10;
            digits = digits + 1;
        }
        let pad: usize = if width > digits { width - digits } else { 0 };
        let mut k: usize = 0;
        assert(old(self)@ + fill(48, 0) =~= old(self)@);
        while k < pad
            invariant
                self.wf(),
                old(self).wf(),
                k <= pad,
                self@ == cap_line(old(self)@ + fill(48, k as int)),
            decreases pad - k,
        {
            self.raw(48);
            proof {
                lemma_cap_line_append(old(self)@, fill(48, k as int), seq![48u8]);
                assert(fill(48, k as int) + seq![48u8] =~= fill(48, k as int + 1));
                assert(self@.len() >= 0);
            }
            k = k + 1;
        }
        let ghost mid = self@;
        self.u(v);
        proof {
            lemma_cap_line_append(old(self)@, fill(48, pad as int), dec(v as nat));
            assert(fill(48, pad as int) =~= fill(48, width as int - dec(v as nat).len()));
            assert(old(self)@ + fill(48, pad as int) + dec(v as nat) =~= old(self)@ + zero_padded(v as nat, width as int));
        }
    }

    fn u3(&mut self, v: u32)
        requires
            old(self).wf(),
        ensures
            final(self).wf(),
            final(self)@ == cap_line(old(self)@ + three_digits(v as nat)),
    {
        let a = 48 + ((v / 100) % 10) as u8;
        let b = 48 + ((v / 10) % 10) as u8;
        let c = 48 + (v % 10) as u8;
        self.raw(a);
        self.raw(b);
        self.raw(c);
        proof {
            lemma_cap_line_append(old(self)@, seq![a], seq![b]);
            lemma_cap_line_append(old(self)@, seq![a] + seq![b], seq![c]);
            assert(old(self)@.push(a) =~= old(self)@ + seq![a]);
            assert(cap_line(old(self)@ + seq![a]).push(b) =~= cap_line(old(self)@ + seq![a]) + seq![b]);
            assert(old(self)@ + seq![a] + seq![b] =~= old(self)@ + (seq![a] + seq![b]));
            assert(cap_line(old(self)@ + (seq![a] + seq![b])).push(c) =~= cap_line(old(self)@ + (seq![a] + seq![b])) + seq![c]);
            assert(old(self)@ + (seq![a] + seq![b]) + seq![c] =~= old(self)@ + three_digits(v as nat));
        }
    }

    /// Append a byte as two lower-case hex digits.
    pub fn hx(&mut self, v: u8)
        requires
            old(self).wf(),
        ensures
            final(self).wf(),
            final(self)@ == cap_line(old(self)@ + hex2(v)),
    {
        let hi = v >> 4u8;
        let lo = v & 0x0F;
        assert(hi == v / 16 && lo == v % 16) by (bit_vector)
            requires
                hi == v >> 4u8,
                lo == v & 0x0F,
        ;
        let a = if hi < 10 { 48 + hi } else { 87 + hi };
        let b = if lo < 10 { 48 + lo } else { 87 + lo };
        self.raw(a);
        self.raw(b);
        proof {
            lemma_cap_line_append(old(self)@, seq![a], seq![b]);
            assert(old(self)@.push(a) =~= old(self)@ + seq![a]);
            assert(cap_line(old(self)@ + seq![a]).push(b) =~= cap_line(old(self)@ + seq![a]) + seq![b]);
            assert(old(self)@ + seq![a] + seq![b] =~= old(self)@ + hex2(v));
        }
    }

    /// Append a 16-bit value as four hex digits, high byte first.
    pub fn hx16(&mut self, v: u16)
        requires
            old(self).wf(),
        ensures
            final(self).wf(),
            final(self)@ == cap_line(old(self)@ + hex2((v / 256) as u8) + hex2((v % 256) as u8)),
    {
        let hi = (v >> 8u16) as u8;
        let lo = (v & 0xFF) as u8;
        assert(hi == v / 256 && lo == v % 256) by (bit_vector)
            requires
                hi == (v >> 8u16) as u8,
                lo == (v & 0xFF) as u8,
        ;
        self.hx(hi);
        self.hx(lo);
        proof {
            lemma_cap_line_append(old(self)@, hex2(hi), hex2(lo));
        }
    }

    /// Begin a line logged at `us` microseconds since boot.
    pub fn new(level: u8, subsys: &[u8], us: u32) -> (d: Self)
        ensures
            d.wf(),
            d@ == cap_line(line_prefix(level, subsys@, us)),
    {
        let mut d = DLog { buf: [0u8; 128], len: 0 };
        assert(d@ =~= Seq::<u8>::empty());
        let sec = us / 1_000_000;
        let ms = (us % 1_000_000) / 1000;
        d.uzp(sec, SEC_W);
        let ghost p1 = zero_padded(sec as nat, 4);
        assert(Seq::<u8>::empty() + p1 =~= p1);
        d.raw(0x2E);
        let ghost p2 = p1 + seq![0x2Eu8];
        proof {
            lemma_cap_line_append(Seq::empty(), p1, seq![0x2Eu8]);
            assert(cap_line(p1).push(0x2E) =~= cap_line(p1) + seq![0x2Eu8]);
            assert(Seq::<u8>::empty() + p1 + seq![0x2Eu8] =~= p2);
        }
        d.u3(ms);
        let ghost p3 = p2 + three_digits(ms as nat);
        proof {
            lemma_cap_line_append(Seq::empty(), p2, three_digits(ms as nat));
            assert(Seq::<u8>::empty() + p2 =~= p2);
        }
        let sep = [0x20u8, level, 0x20u8];
        d.s(&sep);
        let ghost p4 = p3 + seq![0x20u8, level, 0x20u8];
        proof {
            lemma_cap_line_append(Seq::empty(), p3, sep@);
            assert(Seq::<u8>::empty() + p3 =~= p3);
            assert(sep@ =~= seq![0x20u8, level, 0x20u8]);
        }
        d.s(subsys);
        let ghost p5 = p4 + subsys@;
        proof {
            lemma_cap_line_append(Seq::empty(), p4, subsys@);
            assert(Seq::<u8>::empty() + p4 =~= p4);
        }
        let pad: usize = if SUBSYS_W > subsys.len() { SUBSYS_W - subsys.len() } else { 0 };
        let mut k: usize = 0;
        assert(p5 + fill(0x20, 0) =~= p5);
        while k < pad
            invariant
                d.wf(),
                k <= pad,
                p5.len() >= 0,
                d@ == cap_line(p5 + fill(0x20, k as int)),
            decreases pad - k,
        {
            d.raw(0x20);
            proof {
                let q = p5 + fill(0x20, k as int);
                if q.len() <= 128 {
                    assert(cap_line(q).push(0x20) =~= q.push(0x20));
                } else {
                    assert(cap_line(q.push(0x20)) =~= q.take(128));
                }
                assert(q.push(0x20) =~= p5 + fill(0x20, k as int + 1));
            }
            k = k + 1;
        }
        assert(fill(0x20, pad as int) =~= fill(0x20, 4 - subsys@.len()));
        let tail = [0x3Au8, 0x20u8];
        let ghost p6 = p5 + fill(0x20, pad as int);
        proof {
            if p6.len() > 128 {
                assert(cap_line(p6) =~= p6.take(128));
            }
        }
        d.s(&tail);
        proof {
            if p6.len() <= 128 {
                assert(cap_line(p6) == p6);
                assert(cap_line(p6 + tail@) =~= cap_line(p6 + tail@));
            } else {
                assert(cap_line(p6.take(128) + tail@) =~= (p6 + tail@).take(128));
            }
            assert(tail@ =~= seq![0x3Au8, 0x20u8]);
            assert(p6 + tail@ =~= line_prefix(level, subsys@, us));
        }
        d
    }

    /// The line so far.
    pub fn as_bytes(&self) -> (b: &[u8])
        requires
            self.wf(),
        ensures
            b@ == self@,
    {
        vstd::slice::slice_subrange(self.buf.as_slice(), 0, self.len)
    }

    /// End the line and log it on this board.
    pub fn done(&mut self, log: &mut PeerLog)
        requires
            old(self).wf(),
            old(log).wf(),
        ensures
            final(self).wf(),
            final(self)@ == cap_line(old(self)@.push(0x0A)),
            final(log).wf(),
            final(log).role == old(log).role,
            final(log).out_ring@ == model_push_local(old(log).out_ring@, final(self)@, role_prefix(old(log).role)),
            final(log).tx_ring@ == model_push_local(old(log).tx_ring@, final(self)@, role_prefix(old(log).role)),
    {
        self.raw(0x0A);
        let line = self.as_bytes();
        push(log, line);
    }
}

/// Begin an information line.
pub fn i(subsys: &[u8], us: u32) -> (d: DLog)
    ensures
        d.wf(),
        d@ == cap_line(line_prefix(I, subsys@, us)),
{
    DLog::new(I, subsys, us)
}

/// Begin a warning line.
pub fn w(subsys: &[u8], us: u32) -> (d: DLog)
    ensures
        d.wf(),
        d@ == cap_line(line_prefix(W, subsys@, us)),
{
    DLog::new(W, subsys, us)
}

/// Begin an error line.
pub fn e(subsys: &[u8], us: u32) -> (d: DLog)
    ensures
        d.wf(),
        d@ == cap_line(line_prefix(E, subsys@, us)),
{
    DLog::new(E, subsys, us)
}

} // verus!
