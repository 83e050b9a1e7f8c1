//! Pass-through of an upstream HID device: the captured interfaces, the
//! pending output report, what is known of its HID++ features, and the
//! event buffer of the SmartShift double-click detector.
use vstd::prelude::*;
use crate::constants::HID_ITF_PROTOCOL_NONE;

verus! {

/// First device-side interface number of the passed-through interfaces.
pub const ITF_NUM_PT_BASE: u8 = 2;
/// Most interfaces passed through.
pub const MAX_PASSTHROUGH_IFACES: usize = 4;
/// Report id of a short HID++ report.
pub const HIDPP_REPORT_ID_SHORT: u8 = 0x10;
/// Report id of a long HID++ report.
pub const HIDPP_REPORT_ID_LONG: u8 = 0x11;
/// Software id this firmware uses for its own HID++ requests.
pub const HIDPP_SWID_DESKHOP: u8 = 0x0E;
/// Control id of the SmartShift (wheel mode) button.
pub const SMARTSHIFT_CID: u8 = 0xC4;
/// Longest output report kept for the upstream device.
pub const OUT_REPORT_MAX: usize = 64;
/// Events the SmartShift detector can hold back.
pub const SS_BUF_ENTRIES: usize = 8;
/// Longest event the SmartShift detector can hold back.
pub const SS_EVENT_MAX: usize = 20;

/// One captured upstream interface.
#[derive(Debug)]
pub struct PtIface {
    pub dev_addr: u8,
    pub instance: u8,
    pub itf_protocol: u8,
    /// Vendor interface: every report is passed through.
    pub always_passthrough: bool,
    pub desc: Vec<u8>,
}

/// The output report waiting to go to the upstream device.
#[derive(Clone, Copy, Debug)]
pub struct OutQueue {
    pub pending: bool,
    pub dev_addr: u8,
    pub instance: u8,
    pub report_id: u8,
    pub report_type: u8,
    pub len: u16,
    pub data: [u8; 64],
}

/// Feature indices learned from the HID++ traffic, and the button state
/// decoded from diverted buttons.
#[derive(Clone, Copy, Debug)]
pub struct HidppDisc {
    pub fi_reprog_controls: u8,
    pub fi_hires_scroll: u8,
    pub fi_thumbwheel: u8,
    pub button_state: u8,
}

/// One event held back by the SmartShift detector: the device-side
/// interface it goes to and its bytes.
#[derive(Debug)]
pub struct SsEntry {
    pub dev_inst: u8,
    pub data: Vec<u8>,
}

/// Pass-through state.
pub struct PassthroughState {
    pub active: bool,
    pub gave_up: bool,
    pub iface_count: u8,
    pub ifaces: Vec<PtIface>,
    pub last_capture_us: u64,
    pub upstream_vid: u16,
    pub upstream_pid: u16,
    pub reconnect_at_us: u64,
    pub disconnect_requested: bool,
    pub out_queue: OutQueue,
    pub hidpp_disc: HidppDisc,
    pub smartshift_window_us: u64,
    pub smartshift_saw_release: bool,
    pub smartshift_consume: u8,
    pub smartshift_buf: Vec<SsEntry>,
    pub smartshift_buf_count: u8,
}

/// A captured interface as plain values.
pub struct PtIfaceView {
    pub dev_addr: u8,
    pub instance: u8,
    pub itf_protocol: u8,
    pub always_passthrough: bool,
    pub desc: Seq<u8>,
}

impl View for PtIface {
    type V = PtIfaceView;

    open spec fn view(&self) -> PtIfaceView {
        PtIfaceView {
            dev_addr: self.dev_addr,
            instance: self.instance,
            itf_protocol: self.itf_protocol,
            always_passthrough: self.always_passthrough,
            desc: self.desc@,
        }
    }
}

/// A held-back event as plain values.
pub struct SsEntryView {
    pub dev_inst: u8,
    pub data: Seq<u8>,
}

impl View for SsEntry {
    type V = SsEntryView;

    open spec fn view(&self) -> SsEntryView {
        SsEntryView { dev_inst: self.dev_inst, data: self.data@ }
    }
}

/// The pass-through state as plain values; the two counts are the lengths
/// of the two sequences.
pub struct PtView {
    pub active: bool,
    pub gave_up: bool,
    pub ifaces: Seq<PtIfaceView>,
    pub last_capture_us: u64,
    pub upstream_vid: u16,
    pub upstream_pid: u16,
    pub reconnect_at_us: u64,
    pub disconnect_requested: bool,
    pub out_queue: OutQueue,
    pub hidpp_disc: HidppDisc,
    pub smartshift_window_us: u64,
    pub smartshift_saw_release: bool,
    pub smartshift_consume: u8,
    pub smartshift_buf: Seq<SsEntryView>,
}

/// The views of captured interfaces.
pub open spec fn iface_views(s: Seq<PtIface>) -> Seq<PtIfaceView> {
    s.map_values(|i: PtIface| i@)
}

/// The views of held-back events.
pub open spec fn entry_views(s: Seq<SsEntry>) -> Seq<SsEntryView> {
    s.map_values(|e: SsEntry| e@)
}

impl View for PassthroughState {
    type V = PtView;

    open spec fn view(&self) -> PtView {
        PtView {
            active: self.active,
            gave_up: self.gave_up,
            ifaces: iface_views(self.ifaces@),
            last_capture_us: self.last_capture_us,
            upstream_vid: self.upstream_vid,
            upstream_pid: self.upstream_pid,
            reconnect_at_us: self.reconnect_at_us,
            disconnect_requested: self.disconnect_requested,
            out_queue: self.out_queue,
            hidpp_disc: self.hidpp_disc,
            smartshift_window_us: self.smartshift_window_us,
            smartshift_saw_release: self.smartshift_saw_release,
            smartshift_consume: self.smartshift_consume,
            smartshift_buf: entry_views(self.smartshift_buf@),
        }
    }
}

impl PassthroughState {
    /// The interface count matches the captured interfaces, within the
    /// limits, and the SmartShift buffer count is within its capacity.
    pub open spec fn wf(&self) -> bool {
        &&& self.iface_count as int == self.ifaces@.len()
        &&& self.ifaces@.len() <= MAX_PASSTHROUGH_IFACES
        &&& self.smartshift_buf_count as int == self.smartshift_buf@.len()
        &&& self.smartshift_buf@.len() <= SS_BUF_ENTRIES
        &&& self.out_queue.len <= OUT_REPORT_MAX
        &&& forall|i: int| 0 <= i < self.smartshift_buf@.len() ==> #[trigger] self.smartshift_buf@[i].data@.len() <= SS_EVENT_MAX
    }

    /// Nothing captured, nothing pending, nothing learned, the detector at
    /// rest, and every number zero.
    pub open spec fn is_fresh(&self) -> bool {
        &&& self.wf()
        &&& !self.active && !self.gave_up && self.iface_count == 0 && self.last_capture_us == 0
        &&& self.upstream_vid == 0 && self.upstream_pid == 0 && self.reconnect_at_us == 0
        &&& !self.disconnect_requested
        &&& !self.out_queue.pending && self.out_queue.dev_addr == 0 && self.out_queue.instance == 0
        &&& self.out_queue.report_id == 0 && self.out_queue.report_type == 0 && self.out_queue.len == 0
        &&& self.out_queue.data@ == Seq::new(64, |i: int| 0u8)
        &&& self.smartshift_window_us == 0 && self.smartshift_consume == 0 && self.smartshift_buf_count == 0
        &&& !self.smartshift_saw_release
        &&& self.hidpp_disc.fi_reprog_controls == 0 && self.hidpp_disc.fi_hires_scroll == 0
        &&& self.hidpp_disc.fi_thumbwheel == 0 && self.hidpp_disc.button_state == 0
        &&& self@.ifaces.len() == 0 && self@.smartshift_buf.len() == 0
    }

    /// Nothing captured, nothing pending.
    pub fn new() -> (pt: Self)
        ensures
            pt.is_fresh(),
    {
        let pt = PassthroughState {
            active: false,
            gave_up: false,
            iface_count: 0,
            ifaces: Vec::new(),
            last_capture_us: 0,
            upstream_vid: 0,
            upstream_pid: 0,
            reconnect_at_us: 0,
            disconnect_requested: false,
            out_queue: OutQueue { pending: false, dev_addr: 0, instance: 0, report_id: 0, report_type: 0, len: 0, data: [0u8; 64] },
            hidpp_disc: HidppDisc { fi_reprog_controls: 0, fi_hires_scroll: 0, fi_thumbwheel: 0, button_state: 0 },
            smartshift_window_us: 0,
            smartshift_saw_release: false,
            smartshift_consume: 0,
            smartshift_buf: Vec::new(),
            smartshift_buf_count: 0,
        };
        assert(pt.out_queue.data@ =~= Seq::new(64, |i: int| 0u8));
        assert(pt@.ifaces =~= Seq::<PtIfaceView>::empty());
        assert(pt@.smartshift_buf =~= Seq::<SsEntryView>::empty());
        pt
    }
}

impl Default for PassthroughState {
    fn default() -> (pt: Self)
        ensures
            pt.is_fresh(),
    {
        PassthroughState::new()
    }
}

/// The state with one more captured interface.
pub open spec fn captured(v: PtView, dev_addr: u8, instance: u8, itf_protocol: u8, desc: Seq<u8>) -> PtView {
    PtView {
        ifaces: v.ifaces.push(PtIfaceView {
            dev_addr,
            instance,
            itf_protocol,
            always_passthrough: itf_protocol == HID_ITF_PROTOCOL_NONE,
            desc,
        }),
        ..v
    }
}

/// Capture an upstream interface's report descriptor; a vendor interface
/// (no boot protocol) passes every report through. Refused when full.
pub fn capture_descriptor(pt: &mut PassthroughState, dev_addr: u8, instance: u8, itf_protocol: u8, desc: &[u8]) -> (ok: bool)
    requires
        old(pt).wf(),
    ensures
        final(pt).wf(),
        ok == (old(pt)@.ifaces.len() < MAX_PASSTHROUGH_IFACES),
        final(pt)@ == (if ok { captured(old(pt)@, dev_addr, instance, itf_protocol, desc@) } else { old(pt)@ }),
{
    if pt.ifaces.len() >= MAX_PASSTHROUGH_IFACES {
        return false;
    }
    let iface = PtIface {
        dev_addr,
        instance,
        itf_protocol,
        always_passthrough: itf_protocol == HID_ITF_PROTOCOL_NONE,
        desc: vstd::slice::slice_to_vec(desc),
    };
    pt.ifaces.push(iface);
    pt.iface_count = pt.iface_count + 1;
    assert(iface_views(pt.ifaces@) =~= iface_views(old(pt).ifaces@).push(pt.ifaces@.last()@));
    true
}

/// Whether a vendor interface has been captured.
pub open spec fn has_vendor_spec(v: PtView) -> bool {
    exists|i: int| 0 <= i < v.ifaces.len() && v.ifaces[i].always_passthrough
}

/// Tell whether a vendor interface has been captured.
pub fn has_vendor_interface(pt: &PassthroughState) -> (r: bool)
    ensures
        r == has_vendor_spec(pt@),
{
    let mut i: usize = 0;
    while i < pt.ifaces.len()
        invariant
            i <= pt.ifaces@.len(),
            forall|k: int| 0 <= k < i ==> !(#[trigger] pt@.ifaces[k]).always_passthrough,
        decreases pt.ifaces@.len() - i,
    {
        if pt.ifaces[i].always_passthrough {
            assert(pt@.ifaces[i as int].always_passthrough);
            return true;
        }
        i = i + 1;
    }
    false
}

/// Switch pass-through on once the device-side descriptor is ready and an
/// interface is captured; tell whether it was switched on now.
pub fn activate(pt: &mut PassthroughState, desc_ready: bool) -> (r: bool)
    requires
        old(pt).wf(),
    ensures
        final(pt).wf(),
        r == (desc_ready && old(pt)@.ifaces.len() > 0 && !old(pt)@.active),
        final(pt)@ == (if r { PtView { active: true, ..old(pt)@ } } else { old(pt)@ }),
{
    if desc_ready && pt.iface_count > 0 && !pt.active {
        pt.active = true;
        true
    } else {
        false
    }
}

/// The captured interfaces that do not belong to `dev_addr`, in order.
pub open spec fn without_device(s: Seq<PtIfaceView>, dev_addr: u8) -> Seq<PtIfaceView>
    decreases s.len(),
{
    if s.len() == 0 {
        s
    } else if s.last().dev_addr == dev_addr {
        without_device(s.drop_last(), dev_addr)
    } else {
        without_device(s.drop_last(), dev_addr).push(s.last())
    }
}

/// Removing a device forgets exactly its interfaces: none of them is left,
/// and every interface of another device stays.
pub proof fn lemma_unmount_forgets_exactly_the_device(s: Seq<PtIfaceView>, dev_addr: u8)
    ensures
        forall|i: int| 0 <= i < without_device(s, dev_addr).len() ==> (#[trigger] without_device(s, dev_addr)[i]).dev_addr != dev_addr,
        forall|j: int| 0 <= j < s.len() && (#[trigger] s[j]).dev_addr != dev_addr ==> without_device(s, dev_addr).contains(s[j]),
    decreases s.len(),
{
    if s.len() > 0 {
        let p = s.drop_last();
        lemma_unmount_forgets_exactly_the_device(p, dev_addr);
        let w = without_device(p, dev_addr);
        assert forall|j: int| 0 <= j < s.len() && (#[trigger] s[j]).dev_addr != dev_addr implies without_device(s, dev_addr).contains(s[j]) by {
            if j < s.len() - 1 {
                assert(p[j] == s[j]);
                let k = choose|k: int| 0 <= k < w.len() && w[k] == p[j];
                if s.last().dev_addr != dev_addr {
                    assert(w.push(s.last())[k] == s[j]);
                }
            } else {
                assert(w.push(s.last())[w.len() as int] == s[j]);
            }
        }
    }
}

/// The state after a device went away: its interfaces forgotten, and
/// pass-through off when none is left.
pub open spec fn removed(v: PtView, dev_addr: u8) -> PtView {
    PtView {
        ifaces: without_device(v.ifaces, dev_addr),
        active: v.active && without_device(v.ifaces, dev_addr).len() > 0,
        ..v
    }
}

/// Forget every interface of a removed device; pass-through goes off when
/// none is left.
pub fn remove_device(pt: &mut PassthroughState, dev_addr: u8)
    requires
        old(pt).wf(),
    ensures
        final(pt).wf(),
        final(pt)@ == removed(old(pt)@, dev_addr),
{
    let mut rest: Vec<PtIface> = Vec::new();
    std::mem::swap(&mut rest, &mut pt.ifaces);
    let ghost orig = rest@;
    assert(orig == old(pt).ifaces@);
    let mut kept: Vec<PtIface> = Vec::new();
    let mut i: usize = 0;
    while rest.len() > 0
        invariant
            i <= orig.len(),
            rest@ == orig.skip(i as int),
            i + rest@.len() == orig.len(),
            orig.len() <= MAX_PASSTHROUGH_IFACES,
            iface_views(kept@) == without_device(iface_views(orig.take(i as int)), dev_addr),
            kept@.len() <= i,
        decreases rest@.len(),
    {
        assert(iface_views(orig.take(i as int + 1)).drop_last() =~= iface_views(orig.take(i as int)));
        let item = rest.remove(0);
        assert(item == orig[i as int]);
        assert(iface_views(orig.take(i as int + 1)).last() == orig[i as int]@);
        if item.dev_addr != dev_addr {
            proof {
                let ghost before = kept@;
                assert(iface_views(before.push(item)) =~= iface_views(before).push(item@));
            }
            kept.push(item);
        }
        assert(rest@ =~= orig.skip(i as int + 1));
        i = i + 1;
    }
    assert(orig.take(i as int) =~= orig);
    let n = kept.len();
    pt.ifaces = kept;
    pt.iface_count = n as u8;
    if n == 0 {
        pt.active = false;
    }
}


/// The position of the first captured interface with this host address and
/// instance.
pub open spec fn iface_index(s: Seq<PtIfaceView>, dev_addr: u8, instance: u8) -> Option<int>
    decreases s.len(),
{
    if s.len() == 0 {
        None
    } else {
        match iface_index(s.drop_last(), dev_addr, instance) {
            Some(i) => Some(i),
            None => if s.last().dev_addr == dev_addr && s.last().instance == instance {
                Some(s.len() - 1)
            } else {
                None
            },
        }
    }
}

/// What the first matching position is: a match, with none before it.
pub proof fn lemma_iface_index(s: Seq<PtIfaceView>, dev_addr: u8, instance: u8)
    ensures
        match iface_index(s, dev_addr, instance) {
            Some(i) => 0 <= i < s.len() && s[i].dev_addr == dev_addr && s[i].instance == instance
                && forall|k: int| #![trigger s[k]] 0 <= k < i ==> !(s[k].dev_addr == dev_addr && s[k].instance == instance),
            None => forall|k: int| #![trigger s[k]] 0 <= k < s.len() ==> !(s[k].dev_addr == dev_addr && s[k].instance == instance),
        },
    decreases s.len(),
{
    if s.len() > 0 {
        lemma_iface_index(s.drop_last(), dev_addr, instance);
        assert forall|k: int| 0 <= k < s.len() - 1 implies s.drop_last()[k] == s[k] by {}
    }
}

/// The device-side interface number of a captured host interface.
pub fn host_to_device_instance(pt: &PassthroughState, dev_addr: u8, instance: u8) -> (r: Option<u8>)
    requires
        pt.wf(),
    ensures
        r == (match iface_index(pt@.ifaces, dev_addr, instance) {
            Some(i) => Some((ITF_NUM_PT_BASE + i) as u8),
            None => None::<u8>,
        }),
{
    let mut i: usize = 0;
    while i < pt.ifaces.len()
        invariant
            i <= pt.ifaces@.len() <= MAX_PASSTHROUGH_IFACES,
            forall|k: int| #![trigger pt@.ifaces[k]] 0 <= k < i ==> !(pt@.ifaces[k].dev_addr == dev_addr && pt@.ifaces[k].instance == instance),
        decreases pt.ifaces@.len() - i,
    {
        if pt.ifaces[i].dev_addr == dev_addr && pt.ifaces[i].instance == instance {
            proof {
                lemma_iface_index(pt@.ifaces, dev_addr, instance);
                assert(pt@.ifaces[i as int] == pt.ifaces@[i as int]@);
                if let Some(j) = iface_index(pt@.ifaces, dev_addr, instance) {
                    assert(pt@.ifaces[j] == pt@.ifaces[j]);
                }
            }
            return Some(ITF_NUM_PT_BASE + i as u8);
        }
        i = i + 1;
    }
    proof {
        lemma_iface_index(pt@.ifaces, dev_addr, instance);
        if let Some(j) = iface_index(pt@.ifaces, dev_addr, instance) {
            assert(pt@.ifaces[j] == pt@.ifaces[j]);
        }
    }
    None
}

/// The captured host interface behind a device-side interface number.
pub fn device_to_host_index(pt: &PassthroughState, instance: u8) -> (r: Option<u8>)
    requires
        pt.wf(),
    ensures
        r == (if ITF_NUM_PT_BASE <= instance && instance - ITF_NUM_PT_BASE < pt.iface_count {
            Some((instance - ITF_NUM_PT_BASE) as u8)
        } else {
            None::<u8>
        }),
{
    if instance >= ITF_NUM_PT_BASE && instance - ITF_NUM_PT_BASE < pt.iface_count {
        Some(instance - ITF_NUM_PT_BASE)
    } else {
        None
    }
}

/// The report descriptor the device side shows on a passed-through
/// interface: the captured descriptor of the interface behind it.
pub fn get_report_desc(pt: &PassthroughState, device_instance: u8) -> (r: Option<&[u8]>)
    requires
        pt.wf(),
    ensures
        r.is_some() == (ITF_NUM_PT_BASE <= device_instance && device_instance - ITF_NUM_PT_BASE < pt@.ifaces.len()),
        r.is_some() ==> r.unwrap()@ == pt@.ifaces[device_instance - ITF_NUM_PT_BASE].desc,
{
    match device_to_host_index(pt, device_instance) {
        Some(i) => Some(pt.ifaces[i as usize].desc.as_slice()),
        None => None,
    }
}

/// A HID++ notification from the device: a short or long HID++ report
/// whose software id is zero (answers to requests carry the requester's).
pub open spec fn is_hidpp_input_spec(r: Seq<u8>) -> bool {
    &&& r.len() >= 7
    &&& (r[0] == HIDPP_REPORT_ID_SHORT || r[0] == HIDPP_REPORT_ID_LONG)
    &&& r[3] & 0x0F == 0
}

/// Tell whether a report is a HID++ notification.
pub fn is_hidpp_input_event(report: &[u8]) -> (r: bool)
    ensures
        r == is_hidpp_input_spec(report@),
{
    report.len() >= 7 && (report[0] == HIDPP_REPORT_ID_SHORT || report[0] == HIDPP_REPORT_ID_LONG)
        && report[3] & 0x0F == 0
}

/// The function number of a HID++ report.
pub open spec fn hidpp_fn(r: Seq<u8>) -> u8 {
    r[3] >> 4
}

/// Whether a diverted-buttons notification lists the control `cid`: its
/// parameters, from byte 4 on, are big-endian control ids.
pub open spec fn lists_cid(r: Seq<u8>, cid: u8) -> bool {
    exists|j: int| 0 <= j && 4 + 2 * j + 1 < r.len() && r[4 + 2 * j] == 0 && #[trigger] r[4 + 2 * j + 1] == cid
}

/// Tell whether a diverted-buttons notification lists the control `cid`.
fn lists_cid_exec(report: &[u8], cid: u8) -> (r: bool)
    ensures
        r == lists_cid(report@, cid),
{
    let mut j: usize = 4;
    while j + 1 < report.len()
        invariant
            4 <= j,
            (j - 4) % 2 == 0,
            j <= report@.len() + 4,
            forall|k: int| 0 <= k && 4 + 2 * k + 1 < j + 1 ==> !(report@[4 + 2 * k] == 0 && #[trigger] report@[4 + 2 * k + 1] == cid),
        decreases report@.len() + 4 - j,
    {
        if report[j] == 0 && report[j + 1] == cid {
            assert(report@[4 + 2 * ((j - 4) / 2) + 1] == cid);
            return true;
        }
        proof {
            assert forall|k: int| 0 <= k && 4 + 2 * k + 1 < j + 3 implies !(report@[4 + 2 * k] == 0 && #[trigger] report@[4 + 2 * k + 1] == cid) by {
                if 4 + 2 * k + 1 >= j + 1 {
                    assert(4 + 2 * k == j);
                }
            }
        }
        j = j + 2;
    }
    proof {
        assert forall|k: int| 0 <= k && 4 + 2 * k + 1 < report@.len() implies !(report@[4 + 2 * k] == 0 && #[trigger] report@[4 + 2 * k + 1] == cid) by {}
    }
    false
}

/// A press of the SmartShift button: a key event (function 2) for it with a
/// non-zero action, or a diverted-buttons notification (function 0) that
/// lists it.
pub open spec fn is_smartshift_press_spec(r: Seq<u8>) -> bool {
    &&& is_hidpp_input_spec(r)
    &&& ((hidpp_fn(r) == 2 && r[5] == SMARTSHIFT_CID && r[6] != 0)
        || (hidpp_fn(r) == 0 && lists_cid(r, SMARTSHIFT_CID)))
}

/// A release of the SmartShift button: a key event for it with action zero,
/// or a diverted-buttons notification that does not list it.
pub open spec fn is_smartshift_release_spec(r: Seq<u8>) -> bool {
    &&& is_hidpp_input_spec(r)
    &&& ((hidpp_fn(r) == 2 && r[5] == SMARTSHIFT_CID && r[6] == 0)
        || (hidpp_fn(r) == 0 && !lists_cid(r, SMARTSHIFT_CID)))
}

/// Tell whether a report presses the SmartShift button.
pub fn is_smartshift_press(report: &[u8]) -> (r: bool)
    ensures
        r == is_smartshift_press_spec(report@),
{
    if !is_hidpp_input_event(report) {
        return false;
    }
    let f = report[3] >> 4;
    if f == 2 {
        report[5] == SMARTSHIFT_CID && report[6] != 0
    } else if f == 0 {
        lists_cid_exec(report, SMARTSHIFT_CID)
    } else {
        false
    }
}

/// Tell whether a report releases the SmartShift button.
pub fn is_smartshift_release(report: &[u8]) -> (r: bool)
    ensures
        r == is_smartshift_release_spec(report@),
{
    if !is_hidpp_input_event(report) {
        return false;
    }
    let f = report[3] >> 4;
    if f == 2 {
        report[5] == SMARTSHIFT_CID && report[6] == 0
    } else if f == 0 {
        !lists_cid_exec(report, SMARTSHIFT_CID)
    } else {
        false
    }
}

/// Whether the detector has room for this event.
pub open spec fn ss_has_room(v: PtView, r: Seq<u8>) -> bool {
    v.smartshift_buf.len() < SS_BUF_ENTRIES && r.len() <= SS_EVENT_MAX
}

/// The state holding one more event.
pub open spec fn ss_pushed(v: PtView, dev_inst: u8, r: Seq<u8>) -> PtView {
    PtView { smartshift_buf: v.smartshift_buf.push(SsEntryView { dev_inst, data: r }), ..v }
}

/// Hold back an event; refused when the buffer is full or the event too long.
pub fn smartshift_buf_push(pt: &mut PassthroughState, dev_inst: u8, report: &[u8]) -> (ok: bool)
    requires
        old(pt).wf(),
    ensures
        final(pt).wf(),
        ok == ss_has_room(old(pt)@, report@),
        final(pt)@ == (if ok { ss_pushed(old(pt)@, dev_inst, report@) } else { old(pt)@ }),
{
    if pt.smartshift_buf.len() >= SS_BUF_ENTRIES || report.len() > SS_EVENT_MAX {
        return false;
    }
    pt.smartshift_buf.push(SsEntry { dev_inst, data: vstd::slice::slice_to_vec(report) });
    pt.smartshift_buf_count = pt.smartshift_buf_count + 1;
    assert(entry_views(pt.smartshift_buf@) =~= entry_views(old(pt).smartshift_buf@).push(pt.smartshift_buf@.last()@));
    true
}

/// The detector back at rest: no window, no release seen, nothing held.
pub open spec fn ss_reset(v: PtView) -> PtView {
    PtView { smartshift_window_us: 0, smartshift_saw_release: false, smartshift_buf: Seq::empty(), ..v }
}

/// Put the detector back at rest, dropping what it held.
pub fn smartshift_reset(pt: &mut PassthroughState)
    requires
        old(pt).wf(),
    ensures
        final(pt).wf(),
        final(pt)@ == ss_reset(old(pt)@),
{
    pt.smartshift_window_us = 0;
    pt.smartshift_saw_release = false;
    pt.smartshift_buf_count = 0;
    pt.smartshift_buf = Vec::new();
    assert(entry_views(pt.smartshift_buf@) =~= Seq::<SsEntryView>::empty());
}

/// The button bit a diverted control stands for (left, right, middle,
/// back, forward), zero for any other control.
pub open spec fn cid_button_bit(cid: u8) -> u8 {
    if cid == 0x50 { 0x01 }
    else if cid == 0x51 { 0x02 }
    else if cid == 0x52 { 0x04 }
    else if cid == 0x53 { 0x08 }
    else if cid == 0x56 { 0x10 }
    else { 0 }
}

/// The buttons held according to a diverted-buttons notification: the
/// union of the bits of the controls it lists among its first `n` pairs.
pub open spec fn diverted_buttons(r: Seq<u8>, n: nat) -> u8
    decreases n,
{
    if n == 0 {
        0
    } else {
        let j = n - 1;
        let b: u8 = if 4 + 2 * j + 1 < r.len() && r[4 + 2 * j] == 0 { cid_button_bit(r[4 + 2 * j + 1]) } else { 0 };
        diverted_buttons(r, (n - 1) as nat) | b
    }
}

/// The number of control id pairs in a HID++ report's parameters.
pub open spec fn cid_pairs(r: Seq<u8>) -> nat {
    if r.len() >= 5 { ((r.len() - 4) / 2) as nat } else { 0 }
}

/// A big-endian 16-bit value, saturated to the range of `i8`.
pub open spec fn be16_to_i8(hi: u8, lo: u8) -> i8 {
    let v = (hi as u16 * 256 + lo as u16) as i16;
    if v > 127 { 127i8 } else if v < -128 { -128i8 } else { v as i8 }
}

/// What a HID++ notification means as a mouse report: `Some(wheel)` for a
/// high-resolution wheel movement, `None` for anything else.
pub open spec fn hidpp_wheel(d: HidppDisc, r: Seq<u8>) -> Option<i8> {
    if is_hidpp_input_spec(r) && d.fi_hires_scroll != 0 && r[2] == d.fi_hires_scroll && hidpp_fn(r) == 0 {
        Some(be16_to_i8(r[5], r[6]))
    } else {
        None
    }
}

/// Whether a notification reports the diverted buttons.
pub open spec fn is_diverted_buttons(d: HidppDisc, r: Seq<u8>) -> bool {
    is_hidpp_input_spec(r) && d.fi_reprog_controls != 0 && r[2] == d.fi_reprog_controls && hidpp_fn(r) == 0
}

/// The state with the held buttons replaced.
pub open spec fn with_buttons(v: PtView, b: u8) -> PtView {
    PtView { hidpp_disc: HidppDisc { button_state: b, ..v.hidpp_disc }, ..v }
}

/// The state after a notification: diverted buttons replace the held
/// buttons, anything else leaves it as it was.
pub open spec fn after_hidpp_buttons(v: PtView, r: Seq<u8>) -> PtView {
    if is_diverted_buttons(v.hidpp_disc, r) {
        with_buttons(v, diverted_buttons(r, cid_pairs(r)))
    } else {
        v
    }
}

/// A mouse report with the wheel replaced.
pub open spec fn with_wheel(m: crate::structs::MouseReportC, w: i8) -> crate::structs::MouseReportC {
    crate::structs::MouseReportC { wheel: w, ..m }
}

/// Turn a HID++ notification into a mouse report: diverted buttons update
/// the held buttons, a wheel movement fills `mouse`. Tells whether `mouse`
/// was filled.
pub fn convert_hidpp_to_mouse(pt: &mut PassthroughState, report: &[u8], mouse: &mut crate::structs::MouseReportC) -> (converted: bool)
    ensures
        final(pt)@ == after_hidpp_buttons(old(pt)@, report@),
        final(pt).wf() == old(pt).wf(),
        converted == (!is_diverted_buttons(old(pt).hidpp_disc, report@) && hidpp_wheel(old(pt).hidpp_disc, report@).is_some()),
        converted ==> *final(mouse) == with_wheel(*old(mouse), hidpp_wheel(old(pt).hidpp_disc, report@).unwrap()),
        !converted ==> *final(mouse) == *old(mouse),
{
    if !is_hidpp_input_event(report) {
        return false;
    }
    let fi = report[2];
    let f = report[3] >> 4;
    if pt.hidpp_disc.fi_reprog_controls != 0 && fi == pt.hidpp_disc.fi_reprog_controls && f == 0 {
        let len: usize = report.len();
        let n: usize = (len - 4) / 2;
        let mut b: u8 = 0;
        let mut k: usize = 0;
        while k < n
            invariant
                len == report@.len(),
                k <= n,
                n == cid_pairs(report@),
                report@.len() >= 7,
                b == diverted_buttons(report@, k as nat),
            decreases n - k,
        {
            assert(2 * k + 5 < len) by (nonlinear_arith)
                requires
                    k < n,
                    n == (len - 4) / 2,
                    len >= 7,
            ;
            let j = 4 + 2 * k;
            let bit: u8 = if report[j] == 0 { cid_button_bit_exec(report[j + 1]) } else { 0 };
            b = b | bit;
            k = k + 1;
        }
        pt.hidpp_disc.button_state = b;
        return false;
    }
    if pt.hidpp_disc.fi_hires_scroll != 0 && fi == pt.hidpp_disc.fi_hires_scroll && f == 0 {
        let v: i16 = #[verifier::truncate] ((report[5] as u16 * 256 + report[6] as u16) as i16);
        let w: i8 = if v > 127 { 127 } else if v < -128 { -128 } else { v as i8 };
        mouse.wheel = w;
        return true;
    }
    false
}

fn cid_button_bit_exec(cid: u8) -> (b: u8)
    ensures
        b == cid_button_bit(cid),
{
    if cid == 0x50 { 0x01 }
    else if cid == 0x51 { 0x02 }
    else if cid == 0x52 { 0x04 }
    else if cid == 0x53 { 0x08 }
    else if cid == 0x56 { 0x10 }
    else { 0 }
}

/// What is known of the features after the host sent `b`.
pub open spec fn sniffed(d: HidppDisc, b: Seq<u8>) -> HidppDisc {
    if b.len() >= 3 && b[2] >> 4 == 2 { HidppDisc { fi_hires_scroll: b[1], ..d } } else { d }
}

/// Learn feature indices from a request the host sends the device: a
/// function-2 request to a feature is the high-resolution wheel's mode
/// setting, so that feature is the wheel.
pub fn sniff_feature_indices(disc: &mut HidppDisc, buffer: &[u8])
    ensures
        *final(disc) == sniffed(*old(disc), buffer@),
{
    if buffer.len() >= 3 && buffer[2] >> 4 == 2 {
        disc.fi_hires_scroll = buffer[1];
    }
}

} // verus!
