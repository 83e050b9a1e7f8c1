//! Filling an interface's report layout from the values its report
//! descriptor declares: where the mouse fields, the keyboard fields and the
//! consumer and system controls live, and which report handler each report
//! id gets.
use vstd::prelude::*;
use crate::hid_parser::{ReportVal, ARRAY, CONSTANT, VARIABLE};
use crate::structs::{HidInterface, KeyboardDescriptor, MAX_CC_BUTTONS, MAX_KEYBOARDS, MAX_KEYS, MAX_REPORTS};

verus! {

/// What a declared report value was classified as.
#[derive(Debug, Clone, Copy, PartialEq, Eq)]
pub enum ExtractedType {
    MouseButtons,
    MouseX,
    MouseY,
    MouseWheel,
    MousePan,
    Keyboard,
    ConsumerControl,
    SystemControl,
    Unknown,
}

/// Report handler for mouse reports.
pub const HANDLER_MOUSE: u8 = 0;
/// Report handler for keyboard reports.
pub const HANDLER_KEYBOARD: u8 = 1;
/// Report handler for consumer-control reports.
pub const HANDLER_CONSUMER: u8 = 2;
/// Report handler for system-control reports.
pub const HANDLER_SYSTEM: u8 = 3;

/// How many keyboard slots are searched for a report id.
pub open spec fn kbd_search_len(iface: HidInterface) -> int {
    if iface.num_keyboards as int <= MAX_KEYBOARDS { iface.num_keyboards as int } else { MAX_KEYBOARDS as int }
}

/// Find the keyboard slot a report id belongs to.
pub fn find_keyboard_idx(iface: &HidInterface, rid: u8) -> (r: usize)
    ensures
        r < MAX_KEYBOARDS,
        (iface.num_keyboards == 1 || !iface.uses_report_id) ==> r == 0,
        !(iface.num_keyboards == 1 || !iface.uses_report_id) ==> {
            ||| (r < kbd_search_len(*iface) && iface.keyboards[r as int].report_id == rid
                && forall|k: int| 0 <= k < r ==> iface.keyboards[k].report_id != rid)
            ||| (r == 0 && forall|k: int| 0 <= k < kbd_search_len(*iface) ==> iface.keyboards[k].report_id != rid)
        },
        r as int == keyboard_index_of(*iface, rid),
{
    if iface.num_keyboards == 1 || !iface.uses_report_id {
        proof { lemma_keyboard_index_of(*iface, rid, 0); }
        return 0;
    }
    let mut n: usize = 0;
    while n < iface.num_keyboards as usize
        invariant
            !(iface.num_keyboards == 1 || !iface.uses_report_id),
            n <= iface.num_keyboards,
            forall|k: int| 0 <= k < n && k < MAX_KEYBOARDS ==> iface.keyboards[k].report_id != rid,
        decreases iface.num_keyboards - n,
    {
        if n < MAX_KEYBOARDS && iface.keyboards[n].report_id == rid {
            proof { lemma_keyboard_index_of(*iface, rid, n as int); }
            return n;
        }
        n = n + 1;
    }
    proof { lemma_keyboard_index_of(*iface, rid, 0); }
    0
}

/// A keyboard field: the modifier byte (a variable item of at most 8 bits
/// whose usages include 0xE0), an array slot, or an NKRO bitmap (a
/// variable item wider than 32 bits).
pub open spec fn keyboard_slot_updated(old_k: KeyboardDescriptor, new_k: KeyboardDescriptor, val: ReportVal) -> bool {
    &&& new_k.modifier == (if val.size <= 8 && val.data_type == VARIABLE && val.usage_min <= 0xE0 && val.usage_max >= 0xE0 {
        val
    } else {
        old_k.modifier
    })
    &&& new_k.key_array@ == (if (val.offset_idx as int) < MAX_KEYS {
        old_k.key_array@.update(val.offset_idx as int, val.data_type == ARRAY)
    } else {
        old_k.key_array@
    })
    &&& new_k.is_nkro == (old_k.is_nkro || (val.size > 32 && val.data_type == VARIABLE))
    &&& new_k.nkro == (if val.size > 32 && val.data_type == VARIABLE { val } else { old_k.nkro })
    &&& new_k.is_found
    &&& new_k.cc_array == old_k.cc_array
    &&& new_k.sys_array == old_k.sys_array
    &&& new_k.report_id == old_k.report_id
    &&& new_k.key_array_idx == old_k.key_array_idx
    &&& new_k.uses_report_id == old_k.uses_report_id
}

/// What a keyboard value does to the interface: constants and values past
/// the last keyboard slot change nothing; otherwise the value fills its
/// keyboard's slot, and a slot used for the first time counts one keyboard
/// more.
pub open spec fn keyboard_value_applied(o: HidInterface, n: HidInterface, val: ReportVal, ki: int) -> bool {
    if val.item_type == CONSTANT || o.num_keyboards as int >= MAX_KEYBOARDS {
        n == o
    } else {
        &&& 0 <= ki < MAX_KEYBOARDS
        &&& keyboard_slot_updated(o.keyboards[ki], n.keyboards[ki], val)
        &&& forall|j: int| 0 <= j < MAX_KEYBOARDS && j != ki ==> n.keyboards[j] == o.keyboards[j]
        &&& n.num_keyboards == (if o.keyboards[ki].is_found { o.num_keyboards } else { (o.num_keyboards + 1) as u8 })
        &&& n.mouse == o.mouse
        &&& n.consumer == o.consumer
        &&& n.system == o.system
        &&& n.protocol == o.protocol
        &&& n.uses_report_id == o.uses_report_id
    }
}

/// Keyboard values never count more keyboards than there are slots.
pub proof fn lemma_keyboard_count_bounded(o: HidInterface, n: HidInterface, val: ReportVal, ki: int)
    requires
        o.num_keyboards as int <= MAX_KEYBOARDS,
        keyboard_value_applied(o, n, val, ki),
    ensures
        n.num_keyboards as int <= MAX_KEYBOARDS,
{
}

/// Record a keyboard value of the report descriptor.
pub fn handle_keyboard_descriptor(iface: &mut HidInterface, val: &ReportVal) -> (ki: usize)
    ensures
        keyboard_value_applied(*old(iface), *final(iface), *val, keyboard_index_of(*old(iface), val.report_id)),
        !(val.item_type == CONSTANT || old(iface).num_keyboards as int >= MAX_KEYBOARDS)
            ==> ki as int == keyboard_index_of(*old(iface), val.report_id),
{
    if val.item_type == CONSTANT || iface.num_keyboards as usize >= MAX_KEYBOARDS {
        return 0;
    }
    let ki = find_keyboard_idx(iface, val.report_id);
    let ghost o = *old(iface);
    let mut kbd = iface.keyboards[ki];
    if val.size <= 8 && val.data_type == VARIABLE && val.usage_min <= 0xE0 && val.usage_max >= 0xE0 {
        kbd.modifier = *val;
    }
    if (val.offset_idx as usize) < MAX_KEYS {
        kbd.key_array[val.offset_idx as usize] = val.data_type == ARRAY;
    }
    if val.size > 32 && val.data_type == VARIABLE {
        kbd.is_nkro = true;
        kbd.nkro = *val;
    }
    let was_found = kbd.is_found;
    kbd.is_found = true;
    iface.keyboards[ki] = kbd;
    if !was_found {
        iface.num_keyboards = iface.num_keyboards + 1;
    }
    ki
}

/// The slot `find_keyboard_idx` picks.
pub open spec fn keyboard_index_of(iface: HidInterface, rid: u8) -> int {
    if iface.num_keyboards == 1 || !iface.uses_report_id {
        0
    } else if exists|k: int| 0 <= k < kbd_search_len(iface) && iface.keyboards[k].report_id == rid {
        first_keyboard_with(iface, rid, kbd_search_len(iface))
    } else {
        0
    }
}

/// The first slot below `n` with report id `rid`, or `n` when none has it.
pub open spec fn first_keyboard_with(iface: HidInterface, rid: u8, n: int) -> int
    decreases n,
{
    if n <= 0 {
        0
    } else if first_keyboard_with(iface, rid, n - 1) < n - 1 {
        first_keyboard_with(iface, rid, n - 1)
    } else if iface.keyboards[n - 1].report_id == rid {
        n - 1
    } else {
        n
    }
}

proof fn lemma_first_keyboard_with(iface: HidInterface, rid: u8, n: int)
    requires
        0 <= n <= MAX_KEYBOARDS,
    ensures
        0 <= first_keyboard_with(iface, rid, n) <= n,
        first_keyboard_with(iface, rid, n) < n ==> iface.keyboards[first_keyboard_with(iface, rid, n)].report_id == rid,
        forall|k: int| 0 <= k < first_keyboard_with(iface, rid, n) ==> iface.keyboards[k].report_id != rid,
    decreases n,
{
    if n > 0 {
        lemma_first_keyboard_with(iface, rid, n - 1);
    }
}

proof fn lemma_keyboard_index_of(iface: HidInterface, rid: u8, r: int)
    requires
        0 <= r < MAX_KEYBOARDS,
        (iface.num_keyboards == 1 || !iface.uses_report_id) ==> r == 0,
        !(iface.num_keyboards == 1 || !iface.uses_report_id) ==> {
            ||| (r < kbd_search_len(iface) && iface.keyboards[r].report_id == rid
                && forall|k: int| 0 <= k < r ==> iface.keyboards[k].report_id != rid)
            ||| (r == 0 && forall|k: int| 0 <= k < kbd_search_len(iface) ==> iface.keyboards[k].report_id != rid)
        },
    ensures
        r == keyboard_index_of(iface, rid),
{
    let len = kbd_search_len(iface);
    lemma_first_keyboard_with(iface, rid, len);
    if !(iface.num_keyboards == 1 || !iface.uses_report_id) {
        let f = first_keyboard_with(iface, rid, len);
        if exists|k: int| 0 <= k < len && iface.keyboards[k].report_id == rid {
            let w = choose|k: int| 0 <= k < len && iface.keyboards[k].report_id == rid;
            assert(f < len) by {
                if f >= len {
                    assert(iface.keyboards[w].report_id != rid);
                }
            }
            if r < f {
                assert(iface.keyboards[r].report_id != rid);
            }
            if f < r {
                assert(iface.keyboards[f].report_id != rid);
            }
        }
    }
}

/// What a consumer-control value does to the interface: a variable item
/// names the usage of its button slot and marks the control variable; an
/// array item marks it array. Offsets past the button slots change nothing.
pub open spec fn consumer_value_applied(o: HidInterface, n: HidInterface, val: ReportVal, ki: int) -> bool {
    if val.offset as int > MAX_CC_BUTTONS {
        n == o
    } else {
        &&& 0 <= ki < MAX_KEYBOARDS
        &&& ki == keyboard_index_of(o, val.report_id)
        &&& n.keyboards[ki].cc_array@ == (if val.data_type == VARIABLE && (val.offset as int) < MAX_CC_BUTTONS {
            o.keyboards[ki].cc_array@.update(val.offset as int, val.usage)
        } else {
            o.keyboards[ki].cc_array@
        })
        &&& n.keyboards[ki] == (KeyboardDescriptor { cc_array: n.keyboards[ki].cc_array, ..o.keyboards[ki] })
        &&& forall|j: int| 0 <= j < MAX_KEYBOARDS && j != ki ==> n.keyboards[j] == o.keyboards[j]
        &&& n.consumer.is_variable == (o.consumer.is_variable || val.data_type == VARIABLE)
        &&& n.consumer.is_array == (o.consumer.is_array || val.data_type == ARRAY)
        &&& n.consumer.val == o.consumer.val
        &&& n.consumer.report_id == o.consumer.report_id
        &&& n.num_keyboards == o.num_keyboards
        &&& n.mouse == o.mouse
        &&& n.system == o.system
        &&& n.protocol == o.protocol
        &&& n.uses_report_id == o.uses_report_id
    }
}

/// Record a consumer-control value of the report descriptor.
pub fn handle_consumer_control(iface: &mut HidInterface, val: &ReportVal) -> (ki: usize)
    ensures
        consumer_value_applied(*old(iface), *final(iface), *val, keyboard_index_of(*old(iface), val.report_id)),
        (val.offset as int) <= MAX_CC_BUTTONS ==> ki as int == keyboard_index_of(*old(iface), val.report_id),
{
    let offset = val.offset as usize;
    if offset > MAX_CC_BUTTONS {
        return 0;
    }
    let ki = find_keyboard_idx(iface, val.report_id);
    if val.data_type == VARIABLE {
        if offset < MAX_CC_BUTTONS {
            let mut kbd = iface.keyboards[ki];
            kbd.cc_array[offset] = val.usage;
            iface.keyboards[ki] = kbd;
        }
        iface.consumer.is_variable = true;
    }
    iface.consumer.is_array = iface.consumer.is_array || val.data_type == ARRAY;
    ki
}

/// The handler a classified value registers for its report id, if the id
/// has a handler slot.
pub open spec fn handler_for(kind: ExtractedType, rid: u8) -> Option<(u8, u8)> {
    if (rid as int) >= MAX_REPORTS {
        None
    } else {
        match kind {
            ExtractedType::MouseButtons | ExtractedType::MouseX | ExtractedType::MouseY
            | ExtractedType::MouseWheel | ExtractedType::MousePan => Some((rid, HANDLER_MOUSE)),
            ExtractedType::Keyboard => Some((rid, HANDLER_KEYBOARD)),
            ExtractedType::ConsumerControl => Some((rid, HANDLER_CONSUMER)),
            ExtractedType::SystemControl => Some((rid, HANDLER_SYSTEM)),
            ExtractedType::Unknown => None,
        }
    }
}

/// The interface after a classified mouse or system-control value: the
/// value takes its field (a padding value only widens the buttons) and its
/// report id becomes the field's report id. Other kinds are described by
/// `keyboard_value_applied` and `consumer_value_applied`.
pub open spec fn extracted(o: HidInterface, val: ReportVal, kind: ExtractedType, padding: bool) -> HidInterface {
    let m = o.mouse;
    let rid = val.report_id;
    match kind {
        ExtractedType::MouseButtons => HidInterface {
            mouse: if padding {
                crate::structs::MouseDescriptor {
                    buttons: ReportVal { size: (m.buttons.size + val.size) as u16, ..m.buttons },
                    report_id: rid,
                    ..m
                }
            } else {
                crate::structs::MouseDescriptor { buttons: val, is_found: true, report_id: rid, ..m }
            },
            ..o
        },
        ExtractedType::MouseX => HidInterface {
            mouse: crate::structs::MouseDescriptor { move_x: if padding { m.move_x } else { val }, report_id: rid, ..m },
            ..o
        },
        ExtractedType::MouseY => HidInterface {
            mouse: crate::structs::MouseDescriptor { move_y: if padding { m.move_y } else { val }, report_id: rid, ..m },
            ..o
        },
        ExtractedType::MouseWheel => HidInterface {
            mouse: crate::structs::MouseDescriptor { wheel: if padding { m.wheel } else { val }, report_id: rid, ..m },
            ..o
        },
        ExtractedType::MousePan => HidInterface {
            mouse: crate::structs::MouseDescriptor { pan: if padding { m.pan } else { val }, report_id: rid, ..m },
            ..o
        },
        ExtractedType::SystemControl => HidInterface {
            system: crate::structs::ReportDescriptor {
                val: if padding { o.system.val } else { val },
                report_id: rid,
                ..o.system
            },
            ..o
        },
        _ => o,
    }
}

/// The interface with the consumer control's report id replaced.
pub open spec fn with_consumer_rid(o: HidInterface, rid: u8) -> HidInterface {
    HidInterface { consumer: crate::structs::ReportDescriptor { report_id: rid, ..o.consumer }, ..o }
}

/// Record a classified value of the report descriptor in the interface's
/// layout, and tell which report handler its report id gets.
pub fn extract_data(iface: &mut HidInterface, val: &ReportVal, kind: ExtractedType, padding: bool) -> (handler: Option<(u8, u8)>)
    requires
        kind == ExtractedType::MouseButtons && padding ==> old(iface).mouse.buttons.size + val.size <= u16::MAX,
    ensures
        handler == handler_for(kind, val.report_id),
        kind != ExtractedType::Keyboard && kind != ExtractedType::ConsumerControl
            ==> *final(iface) == extracted(*old(iface), *val, kind, padding),
        kind == ExtractedType::Keyboard ==> keyboard_value_applied(
            *old(iface),
            *final(iface),
            *val,
            keyboard_index_of(*old(iface), val.report_id),
        ),
        kind == ExtractedType::ConsumerControl ==> final(iface).consumer.report_id == val.report_id,
        kind == ExtractedType::ConsumerControl ==> consumer_value_applied(
            *old(iface),
            with_consumer_rid(*final(iface), old(iface).consumer.report_id),
            *val,
            keyboard_index_of(*old(iface), val.report_id),
        ),
{
    let rid = val.report_id;
    let has_slot = (rid as usize) < MAX_REPORTS;
    match kind {
        ExtractedType::MouseButtons => {
            if padding {
                iface.mouse.buttons.size = iface.mouse.buttons.size + val.size;
            } else {
                iface.mouse.buttons = *val;
                iface.mouse.is_found = true;
            }
            iface.mouse.report_id = rid;
            if has_slot { Some((rid, HANDLER_MOUSE)) } else { None }
        },
        ExtractedType::MouseX => {
            if !padding {
                iface.mouse.move_x = *val;
            }
            iface.mouse.report_id = rid;
            if has_slot { Some((rid, HANDLER_MOUSE)) } else { None }
        },
        ExtractedType::MouseY => {
            if !padding {
                iface.mouse.move_y = *val;
            }
            iface.mouse.report_id = rid;
            if has_slot { Some((rid, HANDLER_MOUSE)) } else { None }
        },
        ExtractedType::MouseWheel => {
            if !padding {
                iface.mouse.wheel = *val;
            }
            iface.mouse.report_id = rid;
            if has_slot { Some((rid, HANDLER_MOUSE)) } else { None }
        },
        ExtractedType::MousePan => {
            if !padding {
                iface.mouse.pan = *val;
            }
            iface.mouse.report_id = rid;
            if has_slot { Some((rid, HANDLER_MOUSE)) } else { None }
        },
        ExtractedType::Keyboard => {
            let _ki = handle_keyboard_descriptor(iface, val);
            if has_slot { Some((rid, HANDLER_KEYBOARD)) } else { None }
        },
        ExtractedType::ConsumerControl => {
            let ki = handle_consumer_control(iface, val);
            let ghost mid = *iface;
            iface.consumer.report_id = rid;
            assert(with_consumer_rid(*iface, old(iface).consumer.report_id) == mid);
            if has_slot { Some((rid, HANDLER_CONSUMER)) } else { None }
        },
        ExtractedType::SystemControl => {
            if !padding {
                iface.system.val = *val;
            }
            iface.system.report_id = rid;
            if has_slot { Some((rid, HANDLER_SYSTEM)) } else { None }
        },
        ExtractedType::Unknown => None,
    }
}

} // verus!
