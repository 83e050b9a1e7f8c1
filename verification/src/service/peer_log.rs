//! Debug log rings. Each board keeps two: the output ring holds its own
//! log lines and those received from the peer, for its own serial port;
//! the forward ring holds only its own lines, for the peer, so that no
//! line is ever sent back. Every local line starts with the board's prefix.
use vstd::prelude::*;
use crate::constants::OUTPUT_B;

verus! {

/// A byte ring of fixed capacity that drops what does not fit and notes
/// that it did. A ring of capacity zero is unbacked: it takes nothing.
pub struct Ring {
    buf: Vec<u8>,
    cap: usize,
    head: usize,
    tail: usize,
    used: usize,
    /// Bytes were dropped since the last overflow notice.
    pub overflow: bool,
    last_was_newline: bool,
}

/// A ring as mathematical values: its bytes in order, its capacity, the
/// overflow flag, and whether the last byte taken ended a line.
pub struct RingModel {
    pub data: Seq<u8>,
    pub cap: nat,
    pub overflow: bool,
    pub nl: bool,
}

/// Index `x` folded back into a buffer of length `cap`, for `x < 2 * cap`.
pub open spec fn wrap(x: int, cap: int) -> int {
    if x < cap { x } else { x - cap }
}

impl View for Ring {
    type V = RingModel;

    closed spec fn view(&self) -> RingModel {
        RingModel {
            data: Seq::new(self.used as nat, |i: int| self.buf@[wrap(self.head + i, self.cap as int)]),
            cap: self.cap as nat,
            overflow: self.overflow,
            nl: self.last_was_newline,
        }
    }
}

/// The notice written once room is back after bytes were dropped.
pub open spec fn overflow_msg() -> Seq<u8> {
    seq![
        0x5Bu8, 0x70, 0x65, 0x65, 0x72, 0x5F, 0x6C, 0x6F, 0x67, 0x20, 0x6F, 0x76, 0x65, 0x72, 0x66, 0x6C, 0x6F, 0x77,
        0x5D, 0x0D, 0x0A,
    ]
}

/// Appending one byte: refused by an unbacked ring, refused and noted by a
/// full one.
pub open spec fn model_write(m: RingModel, b: u8) -> (RingModel, bool) {
    if m.cap == 0 {
        (m, false)
    } else if m.data.len() >= m.cap {
        (RingModel { overflow: true, ..m }, false)
    } else {
        (RingModel { data: m.data.push(b), ..m }, true)
    }
}

/// Appending bytes in order, stopping at the first refused one.
pub open spec fn model_write_all(m: RingModel, bs: Seq<u8>) -> RingModel
    decreases bs.len(),
{
    if bs.len() == 0 {
        m
    } else {
        let (m1, ok) = model_write(m, bs[0]);
        if ok { model_write_all(m1, bs.drop_first()) } else { m1 }
    }
}

/// The overflow notice, written when bytes were dropped and it fits.
pub open spec fn model_sentinel(m: RingModel) -> RingModel {
    if m.overflow && m.cap != 0 && m.cap - m.data.len() >= 21 {
        RingModel { data: m.data + overflow_msg(), nl: true, overflow: false, ..m }
    } else {
        m
    }
}

/// One byte of a local line: the prefix at a line start, CR before a bare
/// LF, then the byte. The flag says whether to go on.
pub open spec fn model_local_step(m: RingModel, prev: u8, b: u8, prefix: Seq<u8>) -> (RingModel, bool) {
    let m1 = if m.nl { model_write_all(m, prefix) } else { m };
    let (m2, ok2) = if b == 10 && prev != 13 { model_write(m1, 13) } else { (m1, true) };
    if !ok2 {
        (m2, false)
    } else {
        let (m3, ok3) = model_write(m2, b);
        if !ok3 { (m3, false) } else { (RingModel { nl: b == 10, ..m3 }, true) }
    }
}

/// Local bytes from some point on, `prev` being the byte before.
pub open spec fn model_local_from(m: RingModel, prev: u8, bs: Seq<u8>, prefix: Seq<u8>) -> RingModel
    decreases bs.len(),
{
    if bs.len() == 0 {
        m
    } else {
        let (m1, ok) = model_local_step(m, prev, bs[0], prefix);
        if ok { model_local_from(m1, bs[0], bs.drop_first(), prefix) } else { m1 }
    }
}

/// A push of local bytes: nothing for none; otherwise the pending overflow
/// notice, then the bytes line by line.
pub open spec fn model_push_local(m: RingModel, bs: Seq<u8>, prefix: Seq<u8>) -> RingModel {
    if bs.len() == 0 { m } else { model_local_from(model_sentinel(m), 0, bs, prefix) }
}

/// A push of bytes received from the peer: NUL padding dropped, the rest
/// taken as is until one is refused.
pub open spec fn model_push_received(m: RingModel, bs: Seq<u8>) -> RingModel
    decreases bs.len(),
{
    if bs.len() == 0 {
        m
    } else if bs[0] == 0 {
        model_push_received(m, bs.drop_first())
    } else {
        let (m1, ok) = model_write(m, bs[0]);
        if ok { model_push_received(RingModel { nl: bs[0] == 10, ..m1 }, bs.drop_first()) } else { m1 }
    }
}

/// The bytes a chunk carries: up to eight, padded with NULs.
pub open spec fn chunk_of(data: Seq<u8>) -> Seq<u8> {
    if data.len() >= 8 { data.take(8) } else { data + Seq::new((8 - data.len()) as nat, |i: int| 0u8) }
}

/// The bytes other than NUL, in order.
pub open spec fn non_nul(bs: Seq<u8>) -> Seq<u8>
    decreases bs.len(),
{
    if bs.len() == 0 {
        bs
    } else if bs[0] == 0 {
        non_nul(bs.drop_first())
    } else {
        seq![bs[0]] + non_nul(bs.drop_first())
    }
}

/// Bytes received from the peer are kept in the order they came, NUL
/// padding left out, after what the ring held, as long as they fit.
pub proof fn lemma_received_bytes_appended(m: RingModel, bs: Seq<u8>)
    requires
        m.cap > 0,
        m.data.len() + non_nul(bs).len() <= m.cap,
    ensures
        model_push_received(m, bs).data == m.data + non_nul(bs),
    decreases bs.len(),
{
    if bs.len() == 0 {
        assert(m.data + non_nul(bs) =~= m.data);
    } else if bs[0] == 0 {
        lemma_received_bytes_appended(m, bs.drop_first());
    } else {
        let m1 = RingModel { data: m.data.push(bs[0]), nl: bs[0] == 10, ..m };
        lemma_received_bytes_appended(m1, bs.drop_first());
        assert(m.data + non_nul(bs) =~= m1.data + non_nul(bs.drop_first()));
    }
}

impl Ring {
    /// Internal consistency of the ring.
    pub closed spec fn wf(&self) -> bool {
        &&& self.buf@.len() == self.cap
        &&& self.used <= self.cap
        &&& self.cap == 0 ==> self.head == 0 && self.tail == 0 && self.used == 0
        &&& self.cap > 0 ==> self.head < self.cap && self.tail < self.cap
            && self.tail == wrap(self.head + self.used, self.cap as int)
    }

    /// An unbacked ring: capacity zero, every push a no-op.
    pub fn new() -> (r: Self)
        ensures
            r.wf(),
            r@ == (RingModel { data: Seq::empty(), cap: 0, overflow: false, nl: true }),
    {
        let r = Ring { buf: Vec::new(), cap: 0, head: 0, tail: 0, used: 0, overflow: false, last_was_newline: true };
        assert(r@.data =~= Seq::<u8>::empty());
        r
    }

    /// Give the ring a backing buffer of `cap` bytes and empty it.
    pub fn init(&mut self, cap: usize)
        ensures
            final(self).wf(),
            final(self)@ == (RingModel { data: Seq::empty(), cap: cap as nat, overflow: false, nl: true }),
    {
        let mut buf: Vec<u8> = Vec::new();
        let mut i: usize = 0;
        while i < cap
            invariant
                i <= cap,
                buf@.len() == i,
            decreases cap - i,
        {
            buf.push(0);
            i = i + 1;
        }
        self.buf = buf;
        self.cap = cap;
        self.head = 0;
        self.tail = 0;
        self.used = 0;
        self.overflow = false;
        self.last_was_newline = true;
        assert(self@.data =~= Seq::<u8>::empty());
    }

    fn write_byte(&mut self, b: u8) -> (ok: bool)
        requires
            old(self).wf(),
        ensures
            final(self).wf(),
            (final(self)@, ok) == model_write(old(self)@, b),
    {
        if self.cap == 0 {
            return false;
        }
        if self.used >= self.cap {
            self.overflow = true;
            return false;
        }
        let ghost before = self@;
        self.buf.set(self.tail, b);
        self.tail = if self.tail + 1 == self.cap { 0 } else { self.tail + 1 };
        self.used = self.used + 1;
        assert(self@.data =~= before.data.push(b));
        true
    }

    fn write_bytes(&mut self, bytes: &[u8])
        requires
            old(self).wf(),
        ensures
            final(self).wf(),
            final(self)@ == model_write_all(old(self)@, bytes@),
    {
        let mut i: usize = 0;
        assert(bytes@.skip(0) =~= bytes@);
        while i < bytes.len()
            invariant
                self.wf(),
                i <= bytes@.len(),
                model_write_all(self@, bytes@.skip(i as int)) == model_write_all(old(self)@, bytes@),
            decreases bytes@.len() - i,
        {
            assert(bytes@.skip(i as int).drop_first() =~= bytes@.skip(i as int + 1));
            if !self.write_byte(bytes[i]) {
                return;
            }
            i = i + 1;
        }
        assert(bytes@.skip(i as int) =~= Seq::<u8>::empty());
    }

    fn drain_overflow_sentinel_if_needed(&mut self)
        requires
            old(self).wf(),
        ensures
            final(self).wf(),
            final(self)@ == model_sentinel(old(self)@),
    {
        if self.overflow && self.cap != 0 && self.cap - self.used >= 21 {
            let msg: [u8; 21] = [0x5B, 0x70, 0x65, 0x65, 0x72, 0x5F, 0x6C, 0x6F, 0x67, 0x20, 0x6F, 0x76, 0x65, 0x72,
                0x66, 0x6C, 0x6F, 0x77, 0x5D, 0x0D, 0x0A];
            let ghost start = self@;
            let mut i: usize = 0;
            while i < 21
                invariant
                    self.wf(),
                    i <= 21,
                    self@ == (RingModel { data: start.data + msg@.take(i as int), ..start }),
                    start.cap - start.data.len() >= 21,
                    start.cap == self.cap,
                decreases 21 - i,
            {
                let _ = self.write_byte(msg[i]);
                assert(msg@.take(i as int + 1) =~= msg@.take(i as int).push(msg[i as int]));
                i = i + 1;
            }
            assert(msg@.take(21) =~= overflow_msg());
            self.last_was_newline = true;
            self.overflow = false;
        }
    }

    /// Push bytes logged on this board: the prefix at each line start, CR
    /// before each bare LF. A pending overflow notice goes first.
    pub fn push_local(&mut self, bytes: &[u8], prefix: &[u8])
        requires
            old(self).wf(),
        ensures
            final(self).wf(),
            final(self)@ == model_push_local(old(self)@, bytes@, prefix@),
    {
        if bytes.len() == 0 {
            return;
        }
        self.drain_overflow_sentinel_if_needed();
        let ghost m0 = self@;
        let mut prev: u8 = 0;
        let mut i: usize = 0;
        assert(bytes@.skip(0) =~= bytes@);
        while i < bytes.len()
            invariant
                self.wf(),
                i <= bytes@.len(),
                bytes@.len() > 0,
                m0 == model_sentinel(old(self)@),
                model_local_from(self@, prev, bytes@.skip(i as int), prefix@) == model_local_from(m0, 0, bytes@, prefix@),
            decreases bytes@.len() - i,
        {
            let b = bytes[i];
            assert(bytes@.skip(i as int).drop_first() =~= bytes@.skip(i as int + 1));
            if self.last_was_newline {
                self.write_bytes(prefix);
            }
            if b == 10 && prev != 13 && !self.write_byte(13) {
                return;
            }
            if !self.write_byte(b) {
                return;
            }
            self.last_was_newline = b == 10;
            prev = b;
            i = i + 1;
        }
        assert(bytes@.skip(i as int) =~= Seq::<u8>::empty());
        assert(bytes@.skip(0) =~= bytes@);
    }

    /// Push bytes received from the peer, which already carry its prefix:
    /// only NUL padding is dropped.
    pub fn push_received(&mut self, bytes: &[u8])
        requires
            old(self).wf(),
        ensures
            final(self).wf(),
            final(self)@ == model_push_received(old(self)@, bytes@),
    {
        let mut i: usize = 0;
        assert(bytes@.skip(0) =~= bytes@);
        while i < bytes.len()
            invariant
                self.wf(),
                i <= bytes@.len(),
                model_push_received(self@, bytes@.skip(i as int)) == model_push_received(old(self)@, bytes@),
            decreases bytes@.len() - i,
        {
            let b = bytes[i];
            assert(bytes@.skip(i as int).drop_first() =~= bytes@.skip(i as int + 1));
            if b != 0 {
                if !self.write_byte(b) {
                    return;
                }
                self.last_was_newline = b == 10;
            }
            i = i + 1;
        }
        assert(bytes@.skip(i as int) =~= Seq::<u8>::empty());
    }

    /// Take the oldest byte, if any.
    pub fn pop_byte(&mut self) -> (r: Option<u8>)
        requires
            old(self).wf(),
        ensures
            final(self).wf(),
            old(self)@.data.len() == 0 ==> r is None && final(self)@ == old(self)@,
            old(self)@.data.len() > 0 ==> r == Some(old(self)@.data[0])
                && final(self)@ == (RingModel { data: old(self)@.data.drop_first(), ..old(self)@ }),
    {
        if self.used == 0 {
            return None;
        }
        let ghost before = self@;
        let b = self.buf[self.head];
        self.head = if self.head + 1 == self.cap { 0 } else { self.head + 1 };
        self.used = self.used - 1;
        assert(self@.data =~= before.data.drop_first());
        Some(b)
    }

    /// Take up to `out.len()` bytes into the front of `out`; return how many.
    pub fn pop_into(&mut self, out: &mut [u8]) -> (n: usize)
        requires
            old(self).wf(),
        ensures
            final(self).wf(),
            n == if old(out)@.len() < old(self)@.data.len() { old(out)@.len() } else { old(self)@.data.len() },
            final(out)@ == old(self)@.data.take(n as int) + old(out)@.skip(n as int),
            final(self)@ == (RingModel { data: old(self)@.data.skip(n as int), ..old(self)@ }),
    {
        let mut n: usize = 0;
        assert(old(self)@.data.skip(0) =~= old(self)@.data);
        assert(out@ =~= old(self)@.data.take(0) + old(out)@.skip(0));
        while n < out.len()
            invariant_except_break
                self.wf(),
                n <= out@.len(),
                n <= old(self)@.data.len(),
                out@.len() == old(out)@.len(),
                out@ == old(self)@.data.take(n as int) + old(out)@.skip(n as int),
                self@ == (RingModel { data: old(self)@.data.skip(n as int), ..old(self)@ }),
            ensures
                self.wf(),
                n == if old(out)@.len() < old(self)@.data.len() { old(out)@.len() } else { old(self)@.data.len() },
                out@ == old(self)@.data.take(n as int) + old(out)@.skip(n as int),
                self@ == (RingModel { data: old(self)@.data.skip(n as int), ..old(self)@ }),
            decreases out@.len() - n,
        {
            match self.pop_byte() {
                Some(b) => {
                    out[n] = b;
                    assert(old(self)@.data.skip(n as int).drop_first() =~= old(self)@.data.skip(n as int + 1));
                    assert(out@ =~= old(self)@.data.take(n as int + 1) + old(out)@.skip(n as int + 1));
                    n = n + 1;
                },
                None => {
                    break;
                },
            }
        }
        n
    }

    /// Take up to eight bytes as one packet payload, padded with NULs. With
    /// `allow_partial` false, wait until eight bytes are queued.
    pub fn pop_chunk_8(&mut self, allow_partial: bool) -> (r: Option<[u8; 8]>)
        requires
            old(self).wf(),
        ensures
            final(self).wf(),
            (old(self)@.data.len() == 0 || (!allow_partial && old(self)@.data.len() < 8)) ==> r is None
                && final(self)@ == old(self)@,
            !(old(self)@.data.len() == 0 || (!allow_partial && old(self)@.data.len() < 8)) ==> r is Some
                && r.unwrap()@ == chunk_of(old(self)@.data)
                && final(self)@ == (RingModel {
                    data: old(self)@.data.skip(if old(self)@.data.len() < 8 { old(self)@.data.len() as int } else { 8 }),
                    ..old(self)@
                }),
    {
        if self.used == 0 {
            return None;
        }
        if !allow_partial && self.used < 8 {
            return None;
        }
        let mut out = [0u8; 8];
        let mut k: usize = 0;
        assert(old(self)@.data.skip(0) =~= old(self)@.data);
        assert(out@ =~= old(self)@.data.take(0) + Seq::new(8, |i: int| 0u8));
        while k < 8
            invariant_except_break
                self.wf(),
                k <= 8,
                k <= old(self)@.data.len(),
                out@ == old(self)@.data.take(k as int) + Seq::new((8 - k) as nat, |i: int| 0u8),
                self@ == (RingModel { data: old(self)@.data.skip(k as int), ..old(self)@ }),
            ensures
                self.wf(),
                k == if old(self)@.data.len() < 8 { old(self)@.data.len() as int } else { 8 },
                out@ == old(self)@.data.take(k as int) + Seq::new((8 - k) as nat, |i: int| 0u8),
                self@ == (RingModel { data: old(self)@.data.skip(k as int), ..old(self)@ }),
            decreases 8 - k,
        {
            match self.pop_byte() {
                Some(b) => {
                    out[k] = b;
                    assert(old(self)@.data.skip(k as int).drop_first() =~= old(self)@.data.skip(k as int + 1));
                    assert(out@ =~= old(self)@.data.take(k as int + 1) + Seq::new((8 - (k + 1)) as nat, |i: int| 0u8));
                    k = k + 1;
                },
                None => {
                    break;
                },
            }
        }
        assert(out@ =~= chunk_of(old(self)@.data));
        Some(out)
    }

    /// Number of bytes queued.
    pub fn used(&self) -> (n: usize)
        requires
            self.wf(),
        ensures
            n == self@.data.len(),
    {
        self.used
    }
}

/// The two rings of a board and its role.
pub struct PeerLog {
    pub out_ring: Ring,
    pub tx_ring: Ring,
    pub role: u8,
}

impl PeerLog {
    /// Consistency of both rings.
    pub open spec fn wf(&self) -> bool {
        self.out_ring.wf() && self.tx_ring.wf()
    }
}

/// The prefix of this board's lines.
pub open spec fn role_prefix(role: u8) -> Seq<u8> {
    if role == OUTPUT_B { seq![0x5Bu8, 0x42, 0x5D, 0x20] } else { seq![0x5Bu8, 0x41, 0x5D, 0x20] }
}

/// Both rings backed: the output ring with `out_cap` bytes, the forward
/// ring with `tx_cap`.
pub fn peer_log_init(role: u8, out_cap: usize, tx_cap: usize) -> (log: PeerLog)
    ensures
        log.wf(),
        log.role == role,
        log.out_ring@ == (RingModel { data: Seq::empty(), cap: out_cap as nat, overflow: false, nl: true }),
        log.tx_ring@ == (RingModel { data: Seq::empty(), cap: tx_cap as nat, overflow: false, nl: true }),
{
    let mut out_ring = Ring::new();
    out_ring.init(out_cap);
    let mut tx_ring = Ring::new();
    tx_ring.init(tx_cap);
    PeerLog { out_ring, tx_ring, role }
}

/// Log local bytes: to this board's output and to the peer.
pub fn push(log: &mut PeerLog, bytes: &[u8])
    requires
        old(log).wf(),
    ensures
        final(log).wf(),
        final(log).role == old(log).role,
        final(log).out_ring@ == model_push_local(old(log).out_ring@, bytes@, role_prefix(old(log).role)),
        final(log).tx_ring@ == model_push_local(old(log).tx_ring@, bytes@, role_prefix(old(log).role)),
{
    let prefix: [u8; 4] = if log.role == OUTPUT_B { [0x5B, 0x42, 0x5D, 0x20] } else { [0x5B, 0x41, 0x5D, 0x20] };
    assert(prefix@ =~= role_prefix(log.role));
    log.out_ring.push_local(bytes, prefix.as_slice());
    log.tx_ring.push_local(bytes, prefix.as_slice());
}

/// Log bytes received from the peer: to this board's output only, so they
/// are never sent back.
pub fn push_received(log: &mut PeerLog, bytes: &[u8])
    requires
        old(log).wf(),
    ensures
        final(log).wf(),
        final(log).role == old(log).role,
        final(log).out_ring@ == model_push_received(old(log).out_ring@, bytes@),
        final(log).tx_ring@ == old(log).tx_ring@,
{
    log.out_ring.push_received(bytes);
}

/// Take the oldest byte for this board's serial port.
pub fn pop_byte(log: &mut PeerLog) -> (r: Option<u8>)
    requires
        old(log).wf(),
    ensures
        final(log).wf(),
        final(log).tx_ring@ == old(log).tx_ring@,
        old(log).out_ring@.data.len() == 0 ==> r is None,
        old(log).out_ring@.data.len() > 0 ==> r == Some(old(log).out_ring@.data[0])
            && final(log).out_ring@.data == old(log).out_ring@.data.drop_first(),
{
    log.out_ring.pop_byte()
}

/// Take one packet payload of log bytes for the peer.
pub fn pop_chunk_8(log: &mut PeerLog, allow_partial: bool) -> (r: Option<[u8; 8]>)
    requires
        old(log).wf(),
    ensures
        final(log).wf(),
        final(log).out_ring@ == old(log).out_ring@,
        (old(log).tx_ring@.data.len() == 0 || (!allow_partial && old(log).tx_ring@.data.len() < 8)) ==> r is None,
        !(old(log).tx_ring@.data.len() == 0 || (!allow_partial && old(log).tx_ring@.data.len() < 8)) ==> r is Some
            && r.unwrap()@ == chunk_of(old(log).tx_ring@.data),
{
    log.tx_ring.pop_chunk_8(allow_partial)
}

/// Take up to `out.len()` bytes for this board's serial port.
pub fn pop_into(log: &mut PeerLog, out: &mut [u8]) -> (n: usize)
    requires
        old(log).wf(),
    ensures
        final(log).wf(),
        final(log).tx_ring@ == old(log).tx_ring@,
        n == if old(out)@.len() < old(log).out_ring@.data.len() { old(out)@.len() } else { old(log).out_ring@.data.len() },
        final(out)@ == old(log).out_ring@.data.take(n as int) + old(out)@.skip(n as int),
{
    log.out_ring.pop_into(out)
}

} // verus!
