//! Diagnostics decided from plain values: what to log of the HID++ events
//! of a passed-through device (wheel streams summed and rate-limited, key
//! events one by one), and the interfaces and endpoints of the device-side
//! configuration descriptor.
use vstd::prelude::*;
use crate::passthrough::HidppDisc;
use crate::report_extract::byte_at;

verus! {

/// How often a wheel summary is logged at most.
pub const WHEEL_SUMMARY_US: u64 = 300_000;

/// Running sums of the two wheel streams since their last summary.
#[derive(Clone, Copy, Debug)]
pub struct DebugStream {
    pub wheel_n: u16,
    pub wheel_sum: i32,
    pub wheel_last_us: u64,
    pub thumb_n: u16,
    pub thumb_sum: i32,
    pub thumb_last_us: u64,
}

impl DebugStream {
    /// No event seen.
    pub fn new() -> (s: Self)
        ensures
            s == (DebugStream { wheel_n: 0, wheel_sum: 0, wheel_last_us: 0, thumb_n: 0, thumb_sum: 0, thumb_last_us: 0 }),
    {
        DebugStream { wheel_n: 0, wheel_sum: 0, wheel_last_us: 0, thumb_n: 0, thumb_sum: 0, thumb_last_us: 0 }
    }
}

/// What to log of one HID++ event.
#[derive(Clone, Copy, Debug, PartialEq, Eq)]
pub enum HidppLogLine {
    /// Nothing now.
    Nothing,
    /// A summary of the vertical wheel: events and summed movement.
    Scroll { n: u16, sum: i32 },
    /// A summary of the thumb wheel: events and summed movement.
    Thumb { n: u16, sum: i32 },
    /// A key event: feature index, function byte, control and action.
    Key { fi: u8, func: u8, control: u8, action: u8 },
}

/// The wheel movement a HID++ event carries: its parameters 1 and 2,
/// big-endian and signed.
pub open spec fn hidpp_delta(r: Seq<u8>) -> i32 {
    ((r[5] as u16 * 256 + r[6] as u16) as i16) as i32
}

/// One more event of a stream: the count and sum grow (wrapping), the
/// window starts with the first event, and a window older than the summary
/// interval is handed on and restarts now.
pub open spec fn stream_step(n: u16, sum: i32, last: u64, delta: i32, now: u64) -> (u16, i32, u64, Option<(u16, i32)>) {
    let last1 = if last == 0 { now } else { last };
    let sum1 = sum.wrapping_add(delta);
    let n1 = n.wrapping_add(1);
    if now.wrapping_sub(last1) >= WHEEL_SUMMARY_US {
        (0, 0, now, Some((n1, sum1)))
    } else {
        (n1, sum1, last1, None)
    }
}

/// What a HID++ event adds to the streams and what is logged of it: the
/// high-resolution wheel and the thumb wheel are summed; raw movement of
/// a held diverted button is not logged; any other event is a key line.
pub open spec fn hidpp_log_spec(s: DebugStream, d: HidppDisc, r: Seq<u8>, now: u64) -> (DebugStream, HidppLogLine) {
    if r.len() < 7 {
        (s, HidppLogLine::Nothing)
    } else {
        let fi = r[2];
        let delta = hidpp_delta(r);
        if d.fi_hires_scroll != 0 && fi == d.fi_hires_scroll {
            let (n, sum, last, out) = stream_step(s.wheel_n, s.wheel_sum, s.wheel_last_us, delta, now);
            (
                DebugStream { wheel_n: n, wheel_sum: sum, wheel_last_us: last, ..s },
                match out { Some((a, b)) => HidppLogLine::Scroll { n: a, sum: b }, None => HidppLogLine::Nothing },
            )
        } else if d.fi_thumbwheel != 0 && fi == d.fi_thumbwheel {
            let (n, sum, last, out) = stream_step(s.thumb_n, s.thumb_sum, s.thumb_last_us, delta, now);
            (
                DebugStream { thumb_n: n, thumb_sum: sum, thumb_last_us: last, ..s },
                match out { Some((a, b)) => HidppLogLine::Thumb { n: a, sum: b }, None => HidppLogLine::Nothing },
            )
        } else if fi != 0 && fi == d.fi_reprog_controls && (r[3] >> 4u8) & 0x0F == 1 {
            (s, HidppLogLine::Nothing)
        } else {
            (s, HidppLogLine::Key { fi: r[2], func: r[3], control: r[5], action: r[6] })
        }
    }
}

fn stream_step_exec(n: u16, sum: i32, last: u64, delta: i32, now: u64) -> (r: (u16, i32, u64, Option<(u16, i32)>))
    ensures
        r == stream_step(n, sum, last, delta, now),
{
    let last1 = if last == 0 { now } else { last };
    let sum1 = sum.wrapping_add(delta);
    let n1 = n.wrapping_add(1);
    if now.wrapping_sub(last1) >= WHEEL_SUMMARY_US {
        (0, 0, now, Some((n1, sum1)))
    } else {
        (n1, sum1, last1, None)
    }
}

/// Take one HID++ event into the streams and tell what to log of it.
pub fn hidpp_log_step(s: &mut DebugStream, d: &HidppDisc, report: &[u8], now: u64) -> (line: HidppLogLine)
    ensures
        (*final(s), line) == hidpp_log_spec(*old(s), *d, report@, now),
{
    if report.len() < 7 {
        return HidppLogLine::Nothing;
    }
    let fi = report[2];
    let delta: i32 = (#[verifier::truncate] ((report[5] as u16 * 256 + report[6] as u16) as i16)) as i32;
    if d.fi_hires_scroll != 0 && fi == d.fi_hires_scroll {
        let (n, sum, last, out) = stream_step_exec(s.wheel_n, s.wheel_sum, s.wheel_last_us, delta, now);
        s.wheel_n = n;
        s.wheel_sum = sum;
        s.wheel_last_us = last;
        return match out {
            Some((a, b)) => HidppLogLine::Scroll { n: a, sum: b },
            None => HidppLogLine::Nothing,
        };
    }
    if d.fi_thumbwheel != 0 && fi == d.fi_thumbwheel {
        let (n, sum, last, out) = stream_step_exec(s.thumb_n, s.thumb_sum, s.thumb_last_us, delta, now);
        s.thumb_n = n;
        s.thumb_sum = sum;
        s.thumb_last_us = last;
        return match out {
            Some((a, b)) => HidppLogLine::Thumb { n: a, sum: b },
            None => HidppLogLine::Nothing,
        };
    }
    if fi != 0 && fi == d.fi_reprog_controls && (report[3] >> 4u8) & 0x0F == 1 {
        return HidppLogLine::Nothing;
    }
    HidppLogLine::Key { fi: report[2], func: report[3], control: report[5], action: report[6] }
}

/// One entry of a configuration descriptor worth logging.
#[derive(Clone, Copy, Debug, PartialEq, Eq)]
pub enum CompositeItem {
    /// The configuration: its interface count and its current in mA.
    Config { ifaces: u8, milliamps: u32 },
    /// An interface: number, class, subclass, protocol, endpoint count.
    Interface { number: u8, class: u8, subclass: u8, protocol: u8, endpoints: u8 },
    /// An endpoint: address (bit 7 set for IN), transfer type (0 control,
    /// 1 isochronous, 2 bulk, 3 interrupt), packet size, interval.
    Endpoint { address: u8, kind: u8, max_packet: u16, interval: u8 },
}

/// The total length a configuration descriptor gives itself.
pub open spec fn composite_total(d: Seq<u8>) -> int {
    byte_at(d, 2) as int + byte_at(d, 3) as int * 256
}

/// The interface and endpoint entries of a configuration descriptor from
/// byte `i` on, within its total length `total`: each entry is as long as
/// its first byte says; an entry shorter than two bytes ends the walk.
pub open spec fn composite_walk(d: Seq<u8>, total: int, i: int) -> Seq<CompositeItem>
    decreases if i > total { 0 } else { total - i },
{
    if i < 0 || i + 2 > total {
        Seq::empty()
    } else {
        let blen = byte_at(d, i) as int;
        if blen < 2 {
            Seq::empty()
        } else {
            let rest = composite_walk(d, total, i + blen);
            let t = byte_at(d, i + 1);
            if t == 4 && i + 9 <= total {
                seq![CompositeItem::Interface {
                    number: byte_at(d, i + 2),
                    class: byte_at(d, i + 5),
                    subclass: byte_at(d, i + 6),
                    protocol: byte_at(d, i + 7),
                    endpoints: byte_at(d, i + 4),
                }] + rest
            } else if t == 5 && i + 7 <= total {
                seq![CompositeItem::Endpoint {
                    address: byte_at(d, i + 2),
                    kind: byte_at(d, i + 3) & 3,
                    max_packet: (byte_at(d, i + 4) as u16 + byte_at(d, i + 5) as u16 * 256) as u16,
                    interval: byte_at(d, i + 6),
                }] + rest
            } else {
                rest
            }
        }
    }
}

/// What is logged of a configuration descriptor: nothing when it claims
/// fewer than 9 bytes; else the configuration, then its interfaces and
/// endpoints in order. Bytes past the end of `d` read as zero.
pub open spec fn composite_spec(d: Seq<u8>) -> Seq<CompositeItem> {
    let total = composite_total(d);
    if total < 9 {
        Seq::empty()
    } else {
        seq![CompositeItem::Config { ifaces: byte_at(d, 4), milliamps: (byte_at(d, 8) as u32 * 2) as u32 }]
            + composite_walk(d, total, 0)
    }
}

fn byte_at_u(d: &[u8], i: usize) -> (b: u8)
    ensures
        b == byte_at(d@, i as int),
{
    if i < d.len() { d[i] } else { 0 }
}

/// List the entries of a configuration descriptor to log.
pub fn composite_items(desc: &[u8]) -> (items: Vec<CompositeItem>)
    ensures
        items@ == composite_spec(desc@),
{
    let mut items: Vec<CompositeItem> = Vec::new();
    let total: usize = byte_at_u(desc, 2) as usize + byte_at_u(desc, 3) as usize * 256;
    if total < 9 {
        return items;
    }
    items.push(CompositeItem::Config { ifaces: byte_at_u(desc, 4), milliamps: byte_at_u(desc, 8) as u32 * 2 });
    let ghost head = items@;
    assert(head =~= seq![CompositeItem::Config { ifaces: byte_at(desc@, 4), milliamps: (byte_at(desc@, 8) as u32 * 2) as u32 }]);
    assert(head + composite_walk(desc@, total as int, 0) == composite_spec(desc@));
    let mut i: usize = 0;
    while i + 2 <= total
        invariant
            total == composite_total(desc@),
            total < 65536,
            i <= total + 256,
            items@ + composite_walk(desc@, total as int, i as int) == head + composite_walk(desc@, total as int, 0),
            head + composite_walk(desc@, total as int, 0) == composite_spec(desc@),
        decreases total + 256 - i,
    {
        let blen = byte_at_u(desc, i) as usize;
        if blen < 2 {
            assert(composite_walk(desc@, total as int, i as int) =~= Seq::<CompositeItem>::empty());
            assert(items@ + Seq::<CompositeItem>::empty() =~= items@);
            assert(items@ =~= head + composite_walk(desc@, total as int, 0));
            return items;
        }
        let t = byte_at_u(desc, i + 1);
        let ghost before = items@;
        if t == 4 && i + 9 <= total {
            items.push(CompositeItem::Interface {
                number: byte_at_u(desc, i + 2),
                class: byte_at_u(desc, i + 5),
                subclass: byte_at_u(desc, i + 6),
                protocol: byte_at_u(desc, i + 7),
                endpoints: byte_at_u(desc, i + 4),
            });
        } else if t == 5 && i + 7 <= total {
            let lo = byte_at_u(desc, i + 4);
            let hi = byte_at_u(desc, i + 5);
            items.push(CompositeItem::Endpoint {
                address: byte_at_u(desc, i + 2),
                kind: byte_at_u(desc, i + 3) & 3,
                max_packet: lo as u16 + hi as u16 * 256,
                interval: byte_at_u(desc, i + 6),
            });
        }
        proof {
            let rest = composite_walk(desc@, total as int, i + blen);
            if t == 4 && i + 9 <= total || t == 5 && i + 7 <= total {
                assert(items@ + rest =~= before + composite_walk(desc@, total as int, i as int));
            }
        }
        i = i + blen;
    }
    assert(composite_walk(desc@, total as int, i as int) =~= Seq::<CompositeItem>::empty());
    assert(items@ =~= head + composite_walk(desc@, total as int, 0));
    items
}

} // verus!
