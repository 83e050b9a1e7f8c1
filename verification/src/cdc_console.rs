//! The device's USB string descriptors and the debug console on the CDC
//! port: assembling command lines from the received bytes, reading hex
//! arguments, and telling the commands apart.
use vstd::prelude::*;
use vstd::string::StringSliceAdditionalSpecFns;

verus! {

/// Descriptor type of a string descriptor.
pub const TUSB_DESC_STRING_TYPE: u16 = 0x03;
/// String index of the serial number.
pub const STRID_SERIAL: u8 = 3;
/// Longest string a descriptor carries, in characters.
pub const MAX_DESC_CHARS: usize = 31;
/// Language id of the only supported language (English).
pub const LANGID_ENGLISH: u16 = 0x0409;
/// Longest console command line.
pub const LINE_MAX: usize = 24;

/// The fixed strings of the device, by index.
pub open spec fn string_desc_spec(index: u8) -> Option<&'static str> {
    if index == 1 {
        Some("Hrvoje Cavrak")
    } else if index == 2 {
        Some("DeskHop Switch")
    } else if index == 4 {
        Some("DeskHop Helper")
    } else if index == 5 {
        Some("DeskHop Config")
    } else if index == 6 {
        Some("DeskHop Disk")
    } else {
        None
    }
}

/// The fixed string with this index: manufacturer, product and the names
/// of the helper, configuration and disk interfaces.
pub fn string_desc_for(index: u8) -> (r: Option<&'static str>)
    ensures
        r == string_desc_spec(index),
{
    match index {
        1 => Some("Hrvoje Cavrak"),
        2 => Some("DeskHop Switch"),
        4 => Some("DeskHop Helper"),
        5 => Some("DeskHop Config"),
        6 => Some("DeskHop Disk"),
        _ => None,
    }
}

/// The bytes before the first NUL.
pub open spec fn before_nul(s: Seq<u8>) -> Seq<u8>
    decreases s.len(),
{
    if s.len() == 0 {
        s
    } else if s[0] == 0 {
        Seq::empty()
    } else {
        seq![s[0]] + before_nul(s.drop_first())
    }
}

/// The first word of a string descriptor: its length in bytes (the header
/// word included) in the low byte, the descriptor type in the high byte.
pub open spec fn desc_header(chars: nat) -> u16 {
    (0x0300 + 2 * chars + 2) as u16
}

/// The string a descriptor index stands for, as bytes: the serial number
/// is the board id up to its NUL.
pub open spec fn desc_string(index: u8, board_id: Seq<u8>) -> Option<Seq<u8>> {
    if index == STRID_SERIAL {
        Some(before_nul(board_id))
    } else {
        match string_desc_spec(index) {
            Some(s) => Some(s.spec_bytes()),
            None => None,
        }
    }
}

/// The string descriptor for an index, as UTF-16 words: index 0 lists the
/// supported language; other known indices carry their string, cut to 31
/// characters; unknown indices have none.
pub open spec fn string_descriptor_spec(index: u8, board_id: Seq<u8>) -> Option<Seq<u16>> {
    if index == 0 {
        Some(seq![desc_header(1), LANGID_ENGLISH])
    } else {
        match desc_string(index, board_id) {
            Some(b) => {
                let n: nat = if b.len() <= MAX_DESC_CHARS { b.len() } else { MAX_DESC_CHARS as nat };
                Some(seq![desc_header(n)] + b.take(n as int).map_values(|c: u8| c as u16))
            },
            None => None,
        }
    }
}

/// Build the string descriptor for an index; `board_id` holds the board's
/// id string, NUL-terminated or not.
pub fn string_descriptor(index: u8, board_id: &[u8]) -> (r: Option<Vec<u16>>)
    ensures
        r.is_some() == string_descriptor_spec(index, board_id@).is_some(),
        r.is_some() ==> r.unwrap()@ == string_descriptor_spec(index, board_id@).unwrap(),
{
    if index == 0 {
        let mut out: Vec<u16> = Vec::new();
        out.push(header_word(1));
        out.push(LANGID_ENGLISH);
        assert(out@ =~= seq![desc_header(1), LANGID_ENGLISH]);
        return Some(out);
    }
    let bytes: &[u8] = if index == STRID_SERIAL {
        let n = nul_position(board_id);
        vstd::slice::slice_subrange(board_id, 0, n)
    } else {
        match string_desc_for(index) {
            Some(s) => s.as_bytes(),
            None => return None,
        }
    };
    assert(desc_string(index, board_id@) == Some(bytes@));
    let count: usize = if bytes.len() <= MAX_DESC_CHARS { bytes.len() } else { MAX_DESC_CHARS };
    let mut out: Vec<u16> = Vec::new();
    out.push(header_word(count));
    let mut i: usize = 0;
    while i < count
        invariant
            count <= bytes@.len(),
            count <= MAX_DESC_CHARS,
            i <= count,
            out@ == seq![desc_header(count as nat)] + bytes@.take(i as int).map_values(|c: u8| c as u16),
        decreases count - i,
    {
        out.push(bytes[i] as u16);
        assert(bytes@.take(i as int + 1).map_values(|c: u8| c as u16) =~= bytes@.take(i as int).map_values(|c: u8| c as u16).push(bytes@[i as int] as u16));
        i = i + 1;
    }
    Some(out)
}

fn header_word(chars: usize) -> (w: u16)
    requires
        chars <= MAX_DESC_CHARS,
    ensures
        w == desc_header(chars as nat),
{
    let len: u16 = 2 * chars as u16 + 2;
    assert((TUSB_DESC_STRING_TYPE << 8u16) | len == 0x0300 + len) by (bit_vector)
        requires
            len < 256,
            TUSB_DESC_STRING_TYPE == 3,
    ;
    (TUSB_DESC_STRING_TYPE << 8u16) | len
}

proof fn lemma_before_nul(s: Seq<u8>, n: int)
    requires
        0 <= n <= s.len(),
        forall|k: int| 0 <= k < n ==> s[k] != 0,
        n == s.len() || s[n] == 0,
    ensures
        before_nul(s) == s.take(n),
    decreases s.len(),
{
    if s.len() > 0 {
        if s[0] == 0 {
            assert(s.take(n) =~= Seq::<u8>::empty());
        } else {
            lemma_before_nul(s.drop_first(), n - 1);
            assert(seq![s[0]] + s.drop_first().take(n - 1) =~= s.take(n));
        }
    } else {
        assert(s.take(n) =~= s);
    }
}

fn nul_position(s: &[u8]) -> (n: usize)
    ensures
        n <= s@.len(),
        before_nul(s@) == s@.take(n as int),
{
    let mut i: usize = 0;
    while i < s.len() && s[i] != 0
        invariant
            i <= s@.len(),
            forall|k: int| 0 <= k < i ==> s@[k] != 0,
        decreases s@.len() - i,
    {
        i = i + 1;
    }
    proof { lemma_before_nul(s@, i as int); }
    i
}

/// The value of a hex digit.
pub open spec fn hex_digit(b: u8) -> Option<u8> {
    if 48 <= b <= 57 {
        Some((b - 48) as u8)
    } else if 97 <= b <= 102 {
        Some((b - 97 + 10) as u8)
    } else if 65 <= b <= 70 {
        Some((b - 65 + 10) as u8)
    } else {
        None
    }
}

/// Reading a hex number from position `i` on, with `v` read so far and
/// `any` telling whether a digit was seen: blanks before the first digit
/// are skipped, digits shift in (the oldest falling off a 32-bit value),
/// anything else ends the number.
pub open spec fn hex_scan(s: Seq<u8>, i: int, v: u32, any: bool) -> Option<u32>
    decreases s.len() - i,
{
    if i < 0 || i >= s.len() {
        if any { Some(v) } else { None }
    } else {
        match hex_digit(s[i]) {
            Some(d) => hex_scan(s, i + 1, (v << 4u32) | (d as u32), true),
            None => if !any && (s[i] == 32 || s[i] == 9) {
                hex_scan(s, i + 1, v, any)
            } else if any {
                Some(v)
            } else {
                None
            },
        }
    }
}

/// Read one hex number, skipping leading blanks; `None` when there is no
/// hex digit.
pub fn parse_hex(s: &[u8]) -> (r: Option<u32>)
    ensures
        r == hex_scan(s@, 0, 0, false),
{
    let mut v: u32 = 0;
    let mut any = false;
    let mut i: usize = 0;
    while i < s.len()
        invariant
            i <= s@.len(),
            hex_scan(s@, i as int, v, any) == hex_scan(s@, 0, 0, false),
        decreases s@.len() - i,
    {
        let b = s[i];
        let d: u8 = if 48u8 <= b && b <= 57u8 {
            b - 48u8
        } else if 97u8 <= b && b <= 102u8 {
            b - 97u8 + 10
        } else if 65u8 <= b && b <= 70u8 {
            b - 65u8 + 10
        } else if !any && (b == 32u8 || b == 9u8) {
            i = i + 1;
            continue;
        } else {
            return if any { Some(v) } else { None };
        };
        v = (v << 4u32) | d as u32;
        any = true;
        i = i + 1;
    }
    if any { Some(v) } else { None }
}

/// One received byte on the console: a line end hands on the line (if it
/// holds anything) and starts a new one; another byte is added, or, when
/// the line is full, the line is dropped.
pub open spec fn feed_byte(line: Seq<u8>, c: u8) -> (Seq<u8>, Option<Seq<u8>>) {
    if c == 13 || c == 10 {
        if line.len() > 0 { (Seq::empty(), Some(line)) } else { (line, None) }
    } else if line.len() < LINE_MAX {
        (line.push(c), None)
    } else {
        (Seq::empty(), None)
    }
}

/// Received bytes on the console: the line being assembled afterwards and
/// the completed lines, in order.
pub open spec fn feed_all(line: Seq<u8>, data: Seq<u8>) -> (Seq<u8>, Seq<Seq<u8>>)
    decreases data.len(),
{
    if data.len() == 0 {
        (line, Seq::empty())
    } else {
        let (l1, done) = feed_all(line, data.drop_last());
        let (l2, out) = feed_byte(l1, data.last());
        (l2, match out { Some(x) => done.push(x), None => done })
    }
}

/// Every line the console hands on holds between one and `LINE_MAX`
/// bytes, none of them a line end; the line being assembled stays within
/// `LINE_MAX` too.
pub proof fn lemma_lines_are_bounded(line: Seq<u8>, data: Seq<u8>)
    requires
        line.len() <= LINE_MAX,
        forall|k: int| 0 <= k < line.len() ==> line[k] != 13 && line[k] != 10,
    ensures
        feed_all(line, data).0.len() <= LINE_MAX,
        forall|k: int| 0 <= k < feed_all(line, data).0.len() ==> feed_all(line, data).0[k] != 13 && feed_all(line, data).0[k] != 10,
        forall|i: int| 0 <= i < feed_all(line, data).1.len() ==> {
            let l = #[trigger] feed_all(line, data).1[i];
            &&& 0 < l.len() <= LINE_MAX
            &&& forall|k: int| 0 <= k < l.len() ==> l[k] != 13 && l[k] != 10
        },
    decreases data.len(),
{
    if data.len() > 0 {
        lemma_lines_are_bounded(line, data.drop_last());
        let (l1, done) = feed_all(line, data.drop_last());
        let c = data.last();
        if !(c == 13 || c == 10) && l1.len() < LINE_MAX {
            assert forall|k: int| 0 <= k < l1.push(c).len() implies l1.push(c)[k] != 13 && l1.push(c)[k] != 10 by {
                if k < l1.len() {
                    assert(l1.push(c)[k] == l1[k]);
                }
            }
        }
    }
}

/// The views of completed lines.
pub open spec fn line_views(v: Seq<Vec<u8>>) -> Seq<Seq<u8>> {
    v.map_values(|l: Vec<u8>| l@)
}

/// The console's command line being assembled.
pub struct LineAssembler {
    pub line: Vec<u8>,
}

impl LineAssembler {
    /// The line never grows past its limit.
    pub open spec fn wf(&self) -> bool {
        self.line@.len() <= LINE_MAX
    }

    /// An empty line.
    pub fn new() -> (a: Self)
        ensures
            a.wf(),
            a.line@.len() == 0,
    {
        LineAssembler { line: Vec::new() }
    }

    /// Take received bytes; give back the command lines they completed.
    pub fn feed(&mut self, data: &[u8]) -> (lines: Vec<Vec<u8>>)
        requires
            old(self).wf(),
        ensures
            final(self).wf(),
            (final(self).line@, line_views(lines@)) == feed_all(old(self).line@, data@),
    {
        let mut lines: Vec<Vec<u8>> = Vec::new();
        let mut i: usize = 0;
        while i < data.len()
            invariant
                i <= data@.len(),
                self.wf(),
                (self.line@, line_views(lines@)) == feed_all(old(self).line@, data@.take(i as int)),
            decreases data@.len() - i,
        {
            let c = data[i];
            assert(data@.take(i as int + 1).drop_last() =~= data@.take(i as int));
            if c == 13u8 || c == 10u8 {
                if self.line.len() > 0 {
                    let mut done: Vec<u8> = Vec::new();
                    std::mem::swap(&mut done, &mut self.line);
                    proof {
                        let ghost before = lines@;
                        assert(line_views(before.push(done)) =~= line_views(before).push(done@));
                    }
                    lines.push(done);
                    assert(self.line@ =~= Seq::<u8>::empty());
                }
            } else if self.line.len() < LINE_MAX {
                self.line.push(c);
            } else {
                self.line = Vec::new();
                assert(self.line@ =~= Seq::<u8>::empty());
            }
            i = i + 1;
        }
        assert(data@.take(i as int) =~= data@);
        lines
    }
}

/// A console command.
#[derive(Debug, Clone, Copy, PartialEq, Eq)]
pub enum DbgCommand {
    /// Nothing to do.
    Empty,
    /// Replay the log from its start.
    LogDump,
    /// Switch pointer logging on or off.
    TogglePointerLog,
    /// Make the peer take this board's firmware.
    PushFirmware,
    /// Tap a consumer-control usage on the active output.
    ConsumerTap(u16),
    /// Tap a key with modifiers on the active output.
    KeyboardTap { modifier: u8, keycode: u8 },
    /// A tap command whose argument is no hex number.
    BadHex,
    /// A line that is no command.
    Unknown,
}

/// Whether `s` starts with `p`.
pub open spec fn starts_with(s: Seq<u8>, p: Seq<u8>) -> bool {
    p.len() <= s.len() && s.take(p.len() as int) == p
}

/// The bytes of `logdump`.
pub open spec fn word_logdump() -> Seq<u8> {
    seq![108u8, 111u8, 103u8, 100u8, 117u8, 109u8, 112u8]
}

/// The bytes of `ptr`.
pub open spec fn word_ptr() -> Seq<u8> {
    seq![112u8, 116u8, 114u8]
}

/// The bytes of `pushfw`.
pub open spec fn word_pushfw() -> Seq<u8> {
    seq![112u8, 117u8, 115u8, 104u8, 102u8, 119u8]
}

/// The bytes of `cc`.
pub open spec fn word_cc() -> Seq<u8> {
    seq![99u8, 99u8]
}

/// The bytes of `kb`.
pub open spec fn word_kb() -> Seq<u8> {
    seq![107u8, 98u8]
}

/// What a console line asks for.
pub open spec fn dbg_command_spec(line: Seq<u8>) -> DbgCommand {
    if line.len() == 0 {
        DbgCommand::Empty
    } else if starts_with(line, word_logdump()) {
        DbgCommand::LogDump
    } else if starts_with(line, word_ptr()) {
        DbgCommand::TogglePointerLog
    } else if starts_with(line, word_pushfw()) {
        DbgCommand::PushFirmware
    } else if starts_with(line, word_cc()) {
        match hex_scan(line.skip(2), 0, 0, false) {
            Some(v) => DbgCommand::ConsumerTap(v as u16),
            None => DbgCommand::BadHex,
        }
    } else if starts_with(line, word_kb()) {
        match hex_scan(line.skip(2), 0, 0, false) {
            Some(v) => DbgCommand::KeyboardTap { modifier: (v >> 8u32) as u8, keycode: (v & 0xFF) as u8 },
            None => DbgCommand::BadHex,
        }
    } else {
        DbgCommand::Unknown
    }
}

fn has_prefix(s: &[u8], p: &[u8]) -> (r: bool)
    ensures
        r == starts_with(s@, p@),
{
    if p.len() > s.len() {
        return false;
    }
    let mut i: usize = 0;
    while i < p.len()
        invariant
            p@.len() <= s@.len(),
            i <= p@.len(),
            forall|k: int| 0 <= k < i ==> s@[k] == p@[k],
        decreases p@.len() - i,
    {
        if s[i] != p[i] {
            assert(s@.take(p@.len() as int)[i as int] != p@[i as int]);
            return false;
        }
        i = i + 1;
    }
    assert(s@.take(p@.len() as int) =~= p@);
    true
}

/// Tell what a console line asks for.
pub fn parse_dbg_command(line: &[u8]) -> (c: DbgCommand)
    ensures
        c == dbg_command_spec(line@),
{
    if line.len() == 0 {
        return DbgCommand::Empty;
    }
    let logdump: [u8; 7] = [108, 111, 103, 100, 117, 109, 112];
    assert(logdump@ =~= word_logdump());
    if has_prefix(line, logdump.as_slice()) {
        return DbgCommand::LogDump;
    }
    let ptr: [u8; 3] = [112, 116, 114];
    assert(ptr@ =~= word_ptr());
    if has_prefix(line, ptr.as_slice()) {
        return DbgCommand::TogglePointerLog;
    }
    let pushfw: [u8; 6] = [112, 117, 115, 104, 102, 119];
    assert(pushfw@ =~= word_pushfw());
    if has_prefix(line, pushfw.as_slice()) {
        return DbgCommand::PushFirmware;
    }
    let cc: [u8; 2] = [99, 99];
    assert(cc@ =~= word_cc());
    let kb: [u8; 2] = [107, 98];
    assert(kb@ =~= word_kb());
    let is_cc = has_prefix(line, cc.as_slice());
    if !is_cc && !has_prefix(line, kb.as_slice()) {
        return DbgCommand::Unknown;
    }
    let rest = vstd::slice::slice_subrange(line, 2, line.len());
    assert(rest@ =~= line@.skip(2));
    match parse_hex(rest) {
        Some(v) => if is_cc {
            DbgCommand::ConsumerTap(#[verifier::truncate] (v as u16))
        } else {
            DbgCommand::KeyboardTap {
                modifier: #[verifier::truncate] ((v >> 8u32) as u8),
                keycode: #[verifier::truncate] ((v & 0xFF) as u8),
            }
        },
        None => DbgCommand::BadHex,
    }
}

} // verus!
