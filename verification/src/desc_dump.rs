//! A readable summary of a HID report descriptor: the descriptor is read
//! item by item, globals (page, sizes, logical range) carry over while
//! locals (usages, usage range) are cleared by each main item, and every
//! Input, Output or Feature item collapses into one line that says what
//! its fields are. Collections nest, and each line carries its depth.
use vstd::prelude::*;
use crate::hid_parser::{le_value, size_bytes_spec, size_bytes, get_descriptor_value};

verus! {

/// What a short item of a report descriptor is, as far as the summary cares.
#[derive(Clone, Copy, Debug, PartialEq, Eq, Structural)]
pub enum DescKind {
    UsagePage,
    Usage,
    UsageMin,
    UsageMax,
    ReportSize,
    ReportCount,
    LogicalMin,
    LogicalMax,
    ReportId,
    Collection,
    EndCollection,
    Input,
    Output,
    Feature,
    Other,
}

/// One short item: its kind, its unsigned little-endian value, and the
/// collection depth it stands at.
#[derive(Clone, Copy, Debug, PartialEq, Eq, Structural)]
pub struct DescItem {
    pub kind: DescKind,
    pub value: u32,
    pub depth: usize,
}

/// The kind of a short item with the given type (0 main, 1 global,
/// 2 local) and tag.
pub open spec fn desc_kind(htype: u8, tag: u8) -> DescKind {
    if htype == 0 {
        if tag == 8 { DescKind::Input }
        else if tag == 9 { DescKind::Output }
        else if tag == 11 { DescKind::Feature }
        else if tag == 10 { DescKind::Collection }
        else if tag == 12 { DescKind::EndCollection }
        else { DescKind::Other }
    } else if htype == 1 {
        if tag == 0 { DescKind::UsagePage }
        else if tag == 1 { DescKind::LogicalMin }
        else if tag == 2 { DescKind::LogicalMax }
        else if tag == 7 { DescKind::ReportSize }
        else if tag == 8 { DescKind::ReportId }
        else if tag == 9 { DescKind::ReportCount }
        else { DescKind::Other }
    } else if htype == 2 {
        if tag == 0 { DescKind::Usage }
        else if tag == 1 { DescKind::UsageMin }
        else if tag == 2 { DescKind::UsageMax }
        else { DescKind::Other }
    } else {
        DescKind::Other
    }
}

fn kind_of(htype: u8, tag: u8) -> (k: DescKind)
    ensures
        k == desc_kind(htype, tag),
{
    if htype == 0 {
        if tag == 8 { DescKind::Input }
        else if tag == 9 { DescKind::Output }
        else if tag == 11 { DescKind::Feature }
        else if tag == 10 { DescKind::Collection }
        else if tag == 12 { DescKind::EndCollection }
        else { DescKind::Other }
    } else if htype == 1 {
        if tag == 0 { DescKind::UsagePage }
        else if tag == 1 { DescKind::LogicalMin }
        else if tag == 2 { DescKind::LogicalMax }
        else if tag == 7 { DescKind::ReportSize }
        else if tag == 8 { DescKind::ReportId }
        else if tag == 9 { DescKind::ReportCount }
        else { DescKind::Other }
    } else if htype == 2 {
        if tag == 0 { DescKind::Usage }
        else if tag == 1 { DescKind::UsageMin }
        else if tag == 2 { DescKind::UsageMax }
        else { DescKind::Other }
    } else {
        DescKind::Other
    }
}

/// The items of descriptor `d` from byte `i` on, at collection depth
/// `depth`. A long item (prefix 0xFE, then its data length) is stepped
/// over; an item whose data runs past the end stops the walk. A Collection
/// stands at the depth it opens from, an End Collection at the depth it
/// returns to (never below zero).
pub open spec fn desc_walk(d: Seq<u8>, i: int, depth: nat) -> Seq<DescItem>
    decreases (if 0 <= i < d.len() { d.len() - i } else { 0 }),
{
    if i < 0 || i >= d.len() {
        Seq::empty()
    } else if d[i] == 0xFE {
        if i + 1 >= d.len() {
            Seq::empty()
        } else {
            desc_walk(d, i + 3 + d[i + 1], depth)
        }
    } else {
        let b = d[i];
        let n = size_bytes_spec(b) as int;
        if i + 1 + n > d.len() {
            Seq::empty()
        } else {
            let kind = desc_kind((b >> 2u8) & 3, (b >> 4u8) & 0xF);
            let value = le_value(d.subrange(i + 1, i + 1 + n)) as u32;
            let here: nat = if kind == DescKind::EndCollection {
                if depth > 0 { (depth - 1) as nat } else { 0 }
            } else {
                depth
            };
            let next: nat = if kind == DescKind::Collection { depth + 1 } else { here };
            seq![DescItem { kind, value, depth: here as usize }] + desc_walk(d, i + 1 + n, next)
        }
    }
}

/// Read the items of a report descriptor.
pub fn descriptor_items(desc: &[u8]) -> (items: Vec<DescItem>)
    ensures
        items@ == desc_walk(desc@, 0, 0),
{
    let mut items: Vec<DescItem> = Vec::new();
    let mut i: usize = 0;
    let mut depth: usize = 0;
    while i < desc.len()
        invariant
            i <= desc.len(),
            depth <= i,
            items@ + desc_walk(desc@, i as int, depth as nat) == desc_walk(desc@, 0, 0),
        decreases desc.len() - i,
    {
        let b = desc[i];
        if b == 0xFE {
            if i + 1 >= desc.len() {
                assert(items@ + Seq::<DescItem>::empty() =~= items@);
                return items;
            }
            let skip: usize = 3 + desc[i + 1] as usize;
            if desc.len() - i <= skip {
                assert(desc_walk(desc@, i + 3 + desc@[i + 1] as int, depth as nat) =~= Seq::<DescItem>::empty());
                assert(items@ + Seq::<DescItem>::empty() =~= items@);
                return items;
            }
            i = i + skip;
        } else {
            let n: usize = size_bytes(b) as usize;
            if desc.len() - i - 1 < n {
                assert(items@ + Seq::<DescItem>::empty() =~= items@);
                return items;
            }
            let kind = kind_of((b >> 2u8) & 3, (b >> 4u8) & 0xF);
            let rest = vstd::slice::slice_subrange(desc, i + 1, desc.len());
            let value = get_descriptor_value(rest, b & 3);
            proof {
                let s = desc@.subrange(i + 1, i + 1 + n);
                assert(rest@.take(n as int) =~= s);
                assert(b & 3 < 4) by (bit_vector);
                if n == 0 {
                    assert(le_value(s) == 0);
                }
            }
            let here: usize = if kind == DescKind::EndCollection {
                if depth > 0 { depth - 1 } else { 0 }
            } else {
                depth
            };
            let next: usize = if kind == DescKind::Collection { depth + 1 } else { here };
            let ghost before = items@;
            items.push(DescItem { kind, value, depth: here });
            proof {
                let tail = desc_walk(desc@, (i + 1 + n) as int, next as nat);
                assert(desc_walk(desc@, i as int, depth as nat)
                    == seq![DescItem { kind, value, depth: here }] + tail);
                assert(items@ + tail =~= before + desc_walk(desc@, i as int, depth as nat));
            }
            i = i + 1 + n;
            depth = next;
        }
    }
    assert(desc_walk(desc@, i as int, depth as nat) =~= Seq::<DescItem>::empty());
    assert(items@ + Seq::<DescItem>::empty() =~= items@);
    items
}

/// One line of the summary.
#[derive(Clone, Debug, PartialEq, Eq)]
pub enum DumpLine {
    /// A Report ID item.
    ReportId { depth: usize, id: u32 },
    /// A Collection: its type, the usage page in force, and the first
    /// usage declared for it, if any.
    Collection { depth: usize, ctype: u32, page: u16, usage: Option<u32> },
    /// An End Collection.
    EndCollection { depth: usize },
    /// An Input, Output or Feature item: the usage page in force, then
    /// either the usage range (when both ends were given) or the usages
    /// declared since the last main item (at most eight), the report
    /// count and size, the logical range once one was given, and the
    /// item's flag bits (bit 0 constant, bit 1 variable, bit 2 relative).
    Field {
        depth: usize,
        kind: DescKind,
        page: u16,
        range: Option<(u32, u32)>,
        usages: Vec<u32>,
        count: u32,
        size: u32,
        logical: Option<(u32, u32)>,
        flags: u32,
    },
}

/// A summary line with its usages as a sequence.
pub enum DumpLineView {
    ReportId { depth: usize, id: u32 },
    Collection { depth: usize, ctype: u32, page: u16, usage: Option<u32> },
    EndCollection { depth: usize },
    Field {
        depth: usize,
        kind: DescKind,
        page: u16,
        range: Option<(u32, u32)>,
        usages: Seq<u32>,
        count: u32,
        size: u32,
        logical: Option<(u32, u32)>,
        flags: u32,
    },
}

impl View for DumpLine {
    type V = DumpLineView;

    open spec fn view(&self) -> DumpLineView {
        match *self {
            DumpLine::ReportId { depth, id } => DumpLineView::ReportId { depth, id },
            DumpLine::Collection { depth, ctype, page, usage } => DumpLineView::Collection { depth, ctype, page, usage },
            DumpLine::EndCollection { depth } => DumpLineView::EndCollection { depth },
            DumpLine::Field { depth, kind, page, range, usages, count, size, logical, flags } =>
                DumpLineView::Field { depth, kind, page, range, usages: usages@, count, size, logical, flags },
        }
    }
}

/// What the summary remembers between items.
pub struct DumpState {
    pub page: u16,
    pub usages: Seq<u32>,
    pub umin: Option<u32>,
    pub umax: Option<u32>,
    pub size: u32,
    pub count: u32,
    pub lmin: u32,
    pub lmax: u32,
    pub have_log: bool,
}

/// Nothing seen yet.
pub open spec fn dump_start() -> DumpState {
    DumpState {
        page: 0, usages: Seq::empty(), umin: None, umax: None, size: 0, count: 0,
        lmin: 0, lmax: 0, have_log: false,
    }
}

/// The locals cleared, as after a main item.
pub open spec fn locals_cleared(s: DumpState) -> DumpState {
    DumpState { usages: Seq::empty(), umin: None, umax: None, ..s }
}

/// The usage range, when both of its ends were given.
pub open spec fn usage_range(s: DumpState) -> Option<(u32, u32)> {
    match (s.umin, s.umax) {
        (Some(a), Some(b)) => Some((a, b)),
        _ => None,
    }
}

/// One item folded into the summary: the state after it, and the line it
/// gives, if any.
pub open spec fn dump_step(s: DumpState, it: DescItem) -> (DumpState, Option<DumpLineView>) {
    match it.kind {
        DescKind::UsagePage => (DumpState { page: it.value as u16, ..s }, None),
        DescKind::Usage => (
            if s.usages.len() < 8 { DumpState { usages: s.usages.push(it.value), ..s } } else { s },
            None,
        ),
        DescKind::UsageMin => (DumpState { umin: Some(it.value), ..s }, None),
        DescKind::UsageMax => (DumpState { umax: Some(it.value), ..s }, None),
        DescKind::ReportSize => (DumpState { size: it.value, ..s }, None),
        DescKind::ReportCount => (DumpState { count: it.value, ..s }, None),
        DescKind::LogicalMin => (DumpState { lmin: it.value, have_log: true, ..s }, None),
        DescKind::LogicalMax => (DumpState { lmax: it.value, have_log: true, ..s }, None),
        DescKind::ReportId => (s, Some(DumpLineView::ReportId { depth: it.depth, id: it.value })),
        DescKind::Collection => (
            locals_cleared(s),
            Some(DumpLineView::Collection {
                depth: it.depth,
                ctype: it.value,
                page: s.page,
                usage: if s.usages.len() > 0 { Some(s.usages[0]) } else { None },
            }),
        ),
        DescKind::EndCollection => (s, Some(DumpLineView::EndCollection { depth: it.depth })),
        DescKind::Input | DescKind::Output | DescKind::Feature => (
            locals_cleared(s),
            Some(DumpLineView::Field {
                depth: it.depth,
                kind: it.kind,
                page: s.page,
                range: usage_range(s),
                usages: if usage_range(s) is Some { Seq::empty() } else { s.usages },
                count: s.count,
                size: s.size,
                logical: if s.have_log { Some((s.lmin, s.lmax)) } else { None },
                flags: it.value,
            }),
        ),
        DescKind::Other => (s, None),
    }
}

/// The lines that items give from state `s` on.
pub open spec fn dump_run(s: DumpState, items: Seq<DescItem>) -> Seq<DumpLineView>
    decreases items.len(),
{
    if items.len() == 0 {
        Seq::empty()
    } else {
        let (next, line) = dump_step(s, items[0]);
        let here: Seq<DumpLineView> = match line {
            Some(l) => seq![l],
            None => Seq::empty(),
        };
        here + dump_run(next, items.drop_first())
    }
}

/// The summary lines of a report descriptor.
pub open spec fn descriptor_dump_spec(d: Seq<u8>) -> Seq<DumpLineView> {
    dump_run(dump_start(), desc_walk(d, 0, 0))
}

/// The summary lines of a sequence of items.
pub fn dump_lines(items: &[DescItem]) -> (lines: Vec<DumpLine>)
    ensures
        lines@.map_values(|l: DumpLine| l@) == dump_run(dump_start(), items@),
{
    let mut lines: Vec<DumpLine> = Vec::new();
    let mut page: u16 = 0;
    let mut usages: Vec<u32> = Vec::new();
    let mut umin: Option<u32> = None;
    let mut umax: Option<u32> = None;
    let mut size: u32 = 0;
    let mut count: u32 = 0;
    let mut lmin: u32 = 0;
    let mut lmax: u32 = 0;
    let mut have_log: bool = false;
    let mut k: usize = 0;
    assert(items@.skip(0) =~= items@);
    while k < items.len()
        invariant
            k <= items.len(),
            usages@.len() <= 8,
            lines@.map_values(|l: DumpLine| l@) + dump_run(
                DumpState { page, usages: usages@, umin, umax, size, count, lmin, lmax, have_log },
                items@.skip(k as int),
            ) == dump_run(dump_start(), items@),
        decreases items.len() - k,
    {
        let it = items[k];
        let ghost s = DumpState { page, usages: usages@, umin, umax, size, count, lmin, lmax, have_log };
        let ghost old_lines = lines@;
        assert(items@.skip(k as int).drop_first() =~= items@.skip(k + 1));
        assert(items@.skip(k as int)[0] == it);
        let mut line: Option<DumpLine> = None;
        match it.kind {
            DescKind::UsagePage => { page = it.value as u16; },
            DescKind::Usage => {
                if usages.len() < 8 {
                    usages.push(it.value);
                }
            },
            DescKind::UsageMin => { umin = Some(it.value); },
            DescKind::UsageMax => { umax = Some(it.value); },
            DescKind::ReportSize => { size = it.value; },
            DescKind::ReportCount => { count = it.value; },
            DescKind::LogicalMin => { lmin = it.value; have_log = true; },
            DescKind::LogicalMax => { lmax = it.value; have_log = true; },
            DescKind::ReportId => { line = Some(DumpLine::ReportId { depth: it.depth, id: it.value }); },
            DescKind::Collection => {
                let usage = if usages.len() > 0 { Some(usages[0]) } else { None };
                line = Some(DumpLine::Collection { depth: it.depth, ctype: it.value, page, usage });
                usages = Vec::new();
                umin = None;
                umax = None;
            },
            DescKind::EndCollection => { line = Some(DumpLine::EndCollection { depth: it.depth }); },
            DescKind::Input | DescKind::Output | DescKind::Feature => {
                let range: Option<(u32, u32)> = match (umin, umax) {
                    (Some(a), Some(b)) => Some((a, b)),
                    _ => None,
                };
                let listed: Vec<u32> = if range.is_some() { Vec::new() } else { usages.clone() };
                let logical: Option<(u32, u32)> = if have_log { Some((lmin, lmax)) } else { None };
                line = Some(DumpLine::Field {
                    depth: it.depth, kind: it.kind, page, range, usages: listed, count, size, logical,
                    flags: it.value,
                });
                usages = Vec::new();
                umin = None;
                umax = None;
            },
            DescKind::Other => {},
        }
        let ghost s2 = DumpState { page, usages: usages@, umin, umax, size, count, lmin, lmax, have_log };
        proof {
            let (n, l) = dump_step(s, it);
            assert(n == s2);
            if line is Some {
                assert(l == Some(line->0@));
            } else {
                assert(l is None);
            }
        }
        match line {
            Some(x) => {
                lines.push(x);
                assert(lines@.map_values(|l: DumpLine| l@) =~= old_lines.map_values(|l: DumpLine| l@).push(x@));
            },
            None => {},
        }
        k = k + 1;
    }
    assert(items@.skip(k as int) =~= Seq::<DescItem>::empty());
    assert(lines@.map_values(|l: DumpLine| l@) + Seq::<DumpLineView>::empty() =~= lines@.map_values(|l: DumpLine| l@));
    lines
}

/// The summary lines of a report descriptor.
pub fn descriptor_dump(desc: &[u8]) -> (lines: Vec<DumpLine>)
    ensures
        lines@.map_values(|l: DumpLine| l@) == descriptor_dump_spec(desc@),
{
    let items = descriptor_items(desc);
    dump_lines(items.as_slice())
}

} // verus!
