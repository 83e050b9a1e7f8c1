//! Keyboard domain: hotkey table and matching, per-device key state and its
//! combination into one report, and the state changes hotkeys make.
use vstd::prelude::*;
use crate::constants::{
    HID_KEY_A, HID_KEY_B, HID_KEY_C, HID_KEY_D, HID_KEY_F12, HID_KEY_G, HID_KEY_J, HID_KEY_L, HID_KEY_O,
    HID_KEY_P, HID_KEY_S, HID_KEY_X, HID_KEY_Y, HOTKEY_MODIFIER, HOTKEY_TOGGLE,
};
use crate::structs::{Device, DeviceHid, HidKeyboardReport};

verus! {

/// Actions bound to hotkeys.
#[derive(Clone, Copy, Debug, PartialEq, Eq, Structural)]
pub enum HotkeyAction {
    OutputToggle,
    MouseZoomToggle,
    SwitchLockToggle,
    ScreenLock,
    GamingModeToggle,
    ScreensaverPong,
    ScreensaverJitter,
    ScreensaverDisable,
    WipeConfig,
    ScreenBorder,
    ConfigEnable,
    FwUpgradeA,
    FwUpgradeB,
}

/// A hotkey: exact modifier state plus up to two keys that must be held.
#[derive(Clone, Copy, Debug)]
pub struct Hotkey {
    pub modifier: u8,
    pub keys: [u8; 2],
    pub key_count: usize,
    pub pass_to_os: bool,
    pub acknowledge: bool,
    pub action: HotkeyAction,
}

/// Result of a hotkey match.
#[derive(Clone, Copy, Debug, PartialEq, Eq, Structural)]
pub struct HotkeyMatch {
    pub action: HotkeyAction,
    pub pass_to_os: bool,
    pub acknowledge: bool,
}

/// Number of hotkeys in the table.
pub const HOTKEY_COUNT: usize = 13;

/// The hotkey table, in matching priority order.
pub open spec fn hotkey_def(i: int) -> Hotkey {
    if i == 0 {
        Hotkey { modifier: HOTKEY_MODIFIER, keys: [HOTKEY_TOGGLE, 0], key_count: 1, pass_to_os: false,
            acknowledge: false, action: HotkeyAction::OutputToggle }
    } else if i == 1 {
        Hotkey { modifier: 0x50, keys: [0, 0], key_count: 0, pass_to_os: true, acknowledge: true,
            action: HotkeyAction::MouseZoomToggle }
    } else if i == 2 {
        Hotkey { modifier: 0x10, keys: [HID_KEY_L, 0], key_count: 1, pass_to_os: false,
            acknowledge: true, action: HotkeyAction::SwitchLockToggle }
    } else if i == 3 {
        Hotkey { modifier: 0x30, keys: [HID_KEY_L, 0], key_count: 1, pass_to_os: false,
            acknowledge: true, action: HotkeyAction::ScreenLock }
    } else if i == 4 {
        Hotkey { modifier: 0x21, keys: [HID_KEY_G, 0], key_count: 1, pass_to_os: false,
            acknowledge: true, action: HotkeyAction::GamingModeToggle }
    } else if i == 5 {
        Hotkey { modifier: 0x20, keys: [HID_KEY_S, HID_KEY_P], key_count: 2, pass_to_os: false,
            acknowledge: true, action: HotkeyAction::ScreensaverPong }
    } else if i == 6 {
        Hotkey { modifier: 0x20, keys: [HID_KEY_S, HID_KEY_J], key_count: 2, pass_to_os: false,
            acknowledge: true, action: HotkeyAction::ScreensaverJitter }
    } else if i == 7 {
        Hotkey { modifier: 0x20, keys: [HID_KEY_S, HID_KEY_X], key_count: 2, pass_to_os: false,
            acknowledge: true, action: HotkeyAction::ScreensaverDisable }
    } else if i == 8 {
        Hotkey { modifier: 0x20, keys: [HID_KEY_D, HID_KEY_X], key_count: 2, pass_to_os: false,
            acknowledge: true, action: HotkeyAction::WipeConfig }
    } else if i == 9 {
        Hotkey { modifier: 0x21, keys: [HID_KEY_Y, 0], key_count: 1, pass_to_os: false,
            acknowledge: true, action: HotkeyAction::ScreenBorder }
    } else if i == 10 {
        Hotkey { modifier: 0x21, keys: [HID_KEY_C, HID_KEY_O], key_count: 2, pass_to_os: false,
            acknowledge: true, action: HotkeyAction::ConfigEnable }
    } else if i == 11 {
        Hotkey { modifier: 0x22, keys: [HID_KEY_F12, HID_KEY_A], key_count: 2, pass_to_os: false,
            acknowledge: true, action: HotkeyAction::FwUpgradeA }
    } else {
        Hotkey { modifier: 0x22, keys: [HID_KEY_F12, HID_KEY_B], key_count: 2, pass_to_os: false,
            acknowledge: true, action: HotkeyAction::FwUpgradeB }
    }
}

/// Entry `i` of the hotkey table.
pub fn hotkey_at(i: usize) -> (h: Hotkey)
    requires
        i < HOTKEY_COUNT,
    ensures
        h == hotkey_def(i as int),
{
    if i == 0 {
        Hotkey { modifier: HOTKEY_MODIFIER, keys: [HOTKEY_TOGGLE, 0], key_count: 1, pass_to_os: false,
            acknowledge: false, action: HotkeyAction::OutputToggle }
    } else if i == 1 {
        Hotkey { modifier: 0x50, keys: [0, 0], key_count: 0, pass_to_os: true, acknowledge: true,
            action: HotkeyAction::MouseZoomToggle }
    } else if i == 2 {
        Hotkey { modifier: 0x10, keys: [HID_KEY_L, 0], key_count: 1, pass_to_os: false,
            acknowledge: true, action: HotkeyAction::SwitchLockToggle }
    } else if i == 3 {
        Hotkey { modifier: 0x30, keys: [HID_KEY_L, 0], key_count: 1, pass_to_os: false,
            acknowledge: true, action: HotkeyAction::ScreenLock }
    } else if i == 4 {
        Hotkey { modifier: 0x21, keys: [HID_KEY_G, 0], key_count: 1, pass_to_os: false,
            acknowledge: true, action: HotkeyAction::GamingModeToggle }
    } else if i == 5 {
        Hotkey { modifier: 0x20, keys: [HID_KEY_S, HID_KEY_P], key_count: 2, pass_to_os: false,
            acknowledge: true, action: HotkeyAction::ScreensaverPong }
    } else if i == 6 {
        Hotkey { modifier: 0x20, keys: [HID_KEY_S, HID_KEY_J], key_count: 2, pass_to_os: false,
            acknowledge: true, action: HotkeyAction::ScreensaverJitter }
    } else if i == 7 {
        Hotkey { modifier: 0x20, keys: [HID_KEY_S, HID_KEY_X], key_count: 2, pass_to_os: false,
            acknowledge: true, action: HotkeyAction::ScreensaverDisable }
    } else if i == 8 {
        Hotkey { modifier: 0x20, keys: [HID_KEY_D, HID_KEY_X], key_count: 2, pass_to_os: false,
            acknowledge: true, action: HotkeyAction::WipeConfig }
    } else if i == 9 {
        Hotkey { modifier: 0x21, keys: [HID_KEY_Y, 0], key_count: 1, pass_to_os: false,
            acknowledge: true, action: HotkeyAction::ScreenBorder }
    } else if i == 10 {
        Hotkey { modifier: 0x21, keys: [HID_KEY_C, HID_KEY_O], key_count: 2, pass_to_os: false,
            acknowledge: true, action: HotkeyAction::ConfigEnable }
    } else if i == 11 {
        Hotkey { modifier: 0x22, keys: [HID_KEY_F12, HID_KEY_A], key_count: 2, pass_to_os: false,
            acknowledge: true, action: HotkeyAction::FwUpgradeA }
    } else {
        Hotkey { modifier: 0x22, keys: [HID_KEY_F12, HID_KEY_B], key_count: 2, pass_to_os: false,
            acknowledge: true, action: HotkeyAction::FwUpgradeB }
    }
}

/// Whether a key is among a report's six key codes.
pub open spec fn key_in_report(key: u8, r: HidKeyboardReport) -> bool {
    exists|j: int| 0 <= j < 6 && r.keycode[j] == key
}

/// A hotkey fires when the modifiers match exactly and all its keys are held.
pub open spec fn hotkey_matches(h: Hotkey, r: HidKeyboardReport) -> bool {
    &&& h.modifier == r.modifier
    &&& (h.key_count >= 1 ==> key_in_report(h.keys[0], r))
    &&& (h.key_count >= 2 ==> key_in_report(h.keys[1], r))
}

/// The first table entry at or after `i` that fires, if any.
pub open spec fn first_hotkey_from(r: HidKeyboardReport, i: int) -> Option<HotkeyMatch>
    decreases HOTKEY_COUNT - i,
{
    if i >= HOTKEY_COUNT || i < 0 {
        None
    } else if hotkey_matches(hotkey_def(i), r) {
        Some(HotkeyMatch { action: hotkey_def(i).action, pass_to_os: hotkey_def(i).pass_to_os,
            acknowledge: hotkey_def(i).acknowledge })
    } else {
        first_hotkey_from(r, i + 1)
    }
}

fn key_in(key: u8, r: &HidKeyboardReport) -> (b: bool)
    ensures
        b == key_in_report(key, *r),
{
    let mut j: usize = 0;
    while j < 6
        invariant
            j <= 6,
            forall|t: int| 0 <= t < j ==> r.keycode[t] != key,
        decreases 6 - j,
    {
        if r.keycode[j] == key {
            return true;
        }
        j = j + 1;
    }
    false
}

/// Check a keyboard report against the hotkey table; the first entry that
/// fires wins.
pub fn check_all_hotkeys(r: &HidKeyboardReport) -> (m: Option<HotkeyMatch>)
    ensures
        m == first_hotkey_from(*r, 0),
{
    let mut i: usize = 0;
    while i < HOTKEY_COUNT
        invariant
            i <= HOTKEY_COUNT,
            first_hotkey_from(*r, 0) == first_hotkey_from(*r, i as int),
        decreases HOTKEY_COUNT - i,
    {
        let h = hotkey_at(i);
        let mut ok = h.modifier == r.modifier;
        if ok && h.key_count >= 1 {
            ok = key_in(h.keys[0], r);
        }
        if ok && h.key_count >= 2 {
            ok = key_in(h.keys[1], r);
        }
        if ok {
            return Some(HotkeyMatch { action: h.action, pass_to_os: h.pass_to_os, acknowledge: h.acknowledge });
        }
        i = i + 1;
    }
    None
}

/// The state after keyboard `idx` reported `kbd`: only the first four
/// keyboards are tracked.
pub open spec fn kbd_state_updated(s: Device, kbd: HidKeyboardReport, idx: u8) -> Device {
    if idx >= 4 {
        s
    } else {
        Device {
            hid: DeviceHid {
                local_kbd_states: [
                    if idx == 0 { kbd } else { s.hid.local_kbd_states[0] },
                    if idx == 1 { kbd } else { s.hid.local_kbd_states[1] },
                    if idx == 2 { kbd } else { s.hid.local_kbd_states[2] },
                    if idx == 3 { kbd } else { s.hid.local_kbd_states[3] },
                ],
                max_kbd_idx: if idx > s.hid.max_kbd_idx { idx } else { s.hid.max_kbd_idx },
                ..s.hid
            },
            ..s
        }
    }
}

/// Record a keyboard report from local keyboard `device_idx`.
pub fn update_kbd_state(state: &mut Device, kbd: &HidKeyboardReport, device_idx: u8)
    ensures
        *final(state) == kbd_state_updated(*old(state), *kbd, device_idx),
{
    if device_idx >= 4 {
        return;
    }
    state.hid.local_kbd_states[device_idx as usize] = *kbd;
    if device_idx > state.hid.max_kbd_idx {
        state.hid.max_kbd_idx = device_idx;
    }
    assert(state.hid.local_kbd_states =~= kbd_state_updated(*old(state), *kbd, device_idx).hid.local_kbd_states);
}

/// Add one key to a combined key list: non-zero, not yet present, room left.
pub open spec fn merge_key(acc: Seq<u8>, k: u8) -> Seq<u8> {
    if k != 0 && !acc.contains(k) && acc.len() < 6 {
        acc.push(k)
    } else {
        acc
    }
}

/// Add keys in order to a combined key list.
pub open spec fn merge_keys(acc: Seq<u8>, keys: Seq<u8>) -> Seq<u8>
    decreases keys.len(),
{
    if keys.len() == 0 {
        acc
    } else {
        merge_key(merge_keys(acc, keys.drop_last()), keys.last())
    }
}

/// Key codes of the first `n` local keyboards, in order.
pub open spec fn local_keys(hid: DeviceHid, n: int) -> Seq<u8>
    decreases n,
{
    if n <= 0 {
        Seq::empty()
    } else {
        local_keys(hid, n - 1) + hid.local_kbd_states[n - 1].keycode@
    }
}

/// OR of the modifiers of the first `n` local keyboards.
pub open spec fn local_mods(hid: DeviceHid, n: int) -> u8
    decreases n,
{
    if n <= 0 {
        0
    } else {
        local_mods(hid, n - 1) | hid.local_kbd_states[n - 1].modifier
    }
}

/// Number of local keyboards that take part in the combined report.
pub open spec fn active_kbds(hid: DeviceHid) -> int {
    if hid.max_kbd_idx >= 4 { 4 } else { hid.max_kbd_idx + 1 }
}

/// The key list of the combined report: the keys of every local keyboard,
/// then the peer's, each once, at most six.
pub open spec fn combined_keys(hid: DeviceHid) -> Seq<u8> {
    merge_keys(Seq::empty(), local_keys(hid, active_kbds(hid)) + hid.remote_kbd_state.keycode@)
}

/// The combined report: all modifiers OR'ed, keys merged, zero padded.
pub open spec fn combined_report(hid: DeviceHid) -> HidKeyboardReport {
    let keys = combined_keys(hid);
    HidKeyboardReport {
        modifier: local_mods(hid, active_kbds(hid)) | hid.remote_kbd_state.modifier,
        reserved: 0,
        keycode: [
            if keys.len() > 0 { keys[0] } else { 0 },
            if keys.len() > 1 { keys[1] } else { 0 },
            if keys.len() > 2 { keys[2] } else { 0 },
            if keys.len() > 3 { keys[3] } else { 0 },
            if keys.len() > 4 { keys[4] } else { 0 },
            if keys.len() > 5 { keys[5] } else { 0 },
        ],
    }
}

/// A merged key list never exceeds six keys.
pub proof fn lemma_merge_keys_len(acc: Seq<u8>, keys: Seq<u8>)
    requires
        acc.len() <= 6,
    ensures
        merge_keys(acc, keys).len() <= 6,
    decreases keys.len(),
{
    if keys.len() > 0 {
        lemma_merge_keys_len(acc, keys.drop_last());
    }
}

/// Every key of a merged list is non-zero and comes from the inputs.
pub proof fn lemma_merge_keys_sources(acc: Seq<u8>, keys: Seq<u8>, k: u8)
    requires
        merge_keys(acc, keys).contains(k),
    ensures
        acc.contains(k) || (k != 0 && keys.contains(k)),
    decreases keys.len(),
{
    if keys.len() > 0 {
        let prev = merge_keys(acc, keys.drop_last());
        if prev.contains(k) {
            lemma_merge_keys_sources(acc, keys.drop_last(), k);
            if !acc.contains(k) {
                let j = choose|j: int| 0 <= j < keys.drop_last().len() && keys.drop_last()[j] == k;
                assert(keys[j] == k);
            }
        } else {
            let j = choose|j: int| 0 <= j < merge_keys(acc, keys).len() && merge_keys(acc, keys)[j] == k;
            assert(keys[keys.len() - 1] == k);
        }
    }
}

/// Merging only adds keys: what was merged stays, nothing repeats, and
/// every key is non-zero, as long as that held of the start.
proof fn lemma_merge_keys_grows(acc: Seq<u8>, keys: Seq<u8>)
    requires
        acc.no_duplicates(),
        forall|i: int| 0 <= i < acc.len() ==> acc[i] != 0,
    ensures
        merge_keys(acc, keys).no_duplicates(),
        forall|i: int| 0 <= i < merge_keys(acc, keys).len() ==> merge_keys(acc, keys)[i] != 0,
        forall|x: u8| acc.contains(x) ==> merge_keys(acc, keys).contains(x),
        acc.len() <= merge_keys(acc, keys).len(),
    decreases keys.len(),
{
    broadcast use vstd::seq_lib::lemma_seq_contains_after_push;
    if keys.len() > 0 {
        lemma_merge_keys_grows(acc, keys.drop_last());
    }
}

/// While a merged list has room left, it holds every non-zero key merged.
proof fn lemma_merge_keys_complete(acc: Seq<u8>, keys: Seq<u8>, k: u8)
    requires
        merge_keys(acc, keys).len() < 6,
        k != 0,
        keys.contains(k),
        acc.no_duplicates(),
        forall|i: int| 0 <= i < acc.len() ==> acc[i] != 0,
    ensures
        merge_keys(acc, keys).contains(k),
    decreases keys.len(),
{
    broadcast use vstd::seq_lib::lemma_seq_contains_after_push;
    let prev = merge_keys(acc, keys.drop_last());
    lemma_merge_keys_grows(acc, keys.drop_last());
    if keys.last() != k {
        let j = choose|j: int| 0 <= j < keys.len() && keys[j] == k;
        assert(keys.drop_last()[j] == k);
        lemma_merge_keys_complete(acc, keys.drop_last(), k);
    }
}

/// The distinct keys held: the non-zero keys of the local keyboards taking
/// part and of the peer's keyboard.
pub open spec fn held_keys(hid: DeviceHid) -> Set<u8> {
    (local_keys(hid, active_kbds(hid)) + hid.remote_kbd_state.keycode@).to_set().remove(0)
}

/// While at most six distinct keys are held, every key held on a local
/// keyboard or on the peer's reaches the host in the combined report.
pub proof fn lemma_held_keys_reach_host(hid: DeviceHid, k: u8)
    requires
        k != 0,
        local_keys(hid, active_kbds(hid)).contains(k) || hid.remote_kbd_state.keycode@.contains(k),
        held_keys(hid).len() <= 6,
    ensures
        combined_report(hid).keycode@.contains(k),
{
    broadcast use vstd::seq_lib::seq_to_set_is_finite;
    let all = local_keys(hid, active_kbds(hid)) + hid.remote_kbd_state.keycode@;
    let m = combined_keys(hid);
    assert(all.contains(k)) by {
        if local_keys(hid, active_kbds(hid)).contains(k) {
            let j = choose|j: int| 0 <= j < local_keys(hid, active_kbds(hid)).len()
                && local_keys(hid, active_kbds(hid))[j] == k;
            assert(all[j] == k);
        } else {
            let j = choose|j: int| 0 <= j < hid.remote_kbd_state.keycode@.len() && hid.remote_kbd_state.keycode@[j] == k;
            assert(all[local_keys(hid, active_kbds(hid)).len() + j] == k);
        }
    }
    lemma_merge_keys_grows(Seq::empty(), all);
    lemma_merge_keys_len(Seq::empty(), all);
    if !m.contains(k) {
        if m.len() < 6 {
            lemma_merge_keys_complete(Seq::empty(), all, k);
        }
        assert(m.len() == 6);
        m.unique_seq_to_set();
        assert(m.to_set().insert(k).subset_of(held_keys(hid))) by {
            assert forall|x: u8| m.to_set().insert(k).contains(x) implies held_keys(hid).contains(x) by {
                if x != k {
                    lemma_merge_keys_sources(Seq::empty(), all, x);
                }
            }
        }
        vstd::set_lib::lemma_len_subset(m.to_set().insert(k), held_keys(hid));
        assert(false);
    }
    let j = choose|j: int| 0 <= j < m.len() && m[j] == k;
    assert(combined_report(hid).keycode@[j] == k);
}

proof fn lemma_local_mods_cover(hid: DeviceHid, n: int, i: int)
    requires
        0 <= i < n,
    ensures
        local_mods(hid, n) & hid.local_kbd_states[i].modifier == hid.local_kbd_states[i].modifier,
    decreases n,
{
    let m = hid.local_kbd_states[i].modifier;
    let prev = local_mods(hid, n - 1);
    let last = hid.local_kbd_states[n - 1].modifier;
    if i < n - 1 {
        lemma_local_mods_cover(hid, n - 1, i);
        assert(prev & m == m ==> (prev | last) & m == m) by (bit_vector);
    } else {
        assert((prev | m) & m == m) by (bit_vector);
    }
}

proof fn lemma_local_mods_only(hid: DeviceHid, n: int, bit: u8)
    requires
        local_mods(hid, n) & bit != 0,
    ensures
        exists|i: int| 0 <= i < n && #[trigger] hid.local_kbd_states[i].modifier & bit != 0,
    decreases n,
{
    if n <= 0 {
        assert(0u8 & bit == 0) by (bit_vector);
    } else {
        let prev = local_mods(hid, n - 1);
        let last = hid.local_kbd_states[n - 1].modifier;
        assert((prev | last) & bit != 0 ==> prev & bit != 0 || last & bit != 0) by (bit_vector);
        if prev & bit != 0 {
            lemma_local_mods_only(hid, n - 1, bit);
        } else {
            assert(hid.local_kbd_states[n - 1].modifier & bit != 0);
        }
    }
}

/// The combined report holds a modifier exactly when the peer's keyboard
/// or one of the local keyboards taking part holds it.
pub proof fn lemma_combined_modifiers(hid: DeviceHid, bit: u8)
    ensures
        (combined_report(hid).modifier & bit != 0) <==> (hid.remote_kbd_state.modifier & bit != 0
            || exists|i: int| 0 <= i < active_kbds(hid) && #[trigger] hid.local_kbd_states[i].modifier & bit != 0),
{
    let l = local_mods(hid, active_kbds(hid));
    let r = hid.remote_kbd_state.modifier;
    assert((l | r) & bit != 0 <==> (l & bit != 0 || r & bit != 0)) by (bit_vector);
    if l & bit != 0 {
        lemma_local_mods_only(hid, active_kbds(hid), bit);
    }
    if exists|i: int| 0 <= i < active_kbds(hid) && #[trigger] hid.local_kbd_states[i].modifier & bit != 0 {
        let i = choose|i: int| 0 <= i < active_kbds(hid) && #[trigger] hid.local_kbd_states[i].modifier & bit != 0;
        let m = hid.local_kbd_states[i].modifier;
        lemma_local_mods_cover(hid, active_kbds(hid), i);
        assert(l & m == m && m & bit != 0 ==> l & bit != 0) by (bit_vector);
    }
}

/// Combine the local keyboards' states and the peer's into one report.
pub fn combine_kbd_states(state: &Device) -> (r: HidKeyboardReport)
    ensures
        r == combined_report(state.hid),
{
    let hid = &state.hid;
    let n: usize = if hid.max_kbd_idx >= 4 { 4 } else { hid.max_kbd_idx as usize + 1 };
    let mut all: Vec<u8> = Vec::new();
    let mut modifier: u8 = 0;
    let mut i: usize = 0;
    while i < n
        invariant
            i <= n,
            n == active_kbds(*hid),
            n <= 4,
            all@ == local_keys(*hid, i as int),
            modifier == local_mods(*hid, i as int),
        decreases n - i,
    {
        let ghost before = all@;
        let mut j: usize = 0;
        while j < 6
            invariant
                j <= 6,
                i < n,
                n <= 4,
                all@ == before + hid.local_kbd_states[i as int].keycode@.take(j as int),
            decreases 6 - j,
        {
            all.push(hid.local_kbd_states[i].keycode[j]);
            assert(hid.local_kbd_states[i as int].keycode@.take(j as int + 1) =~= hid.local_kbd_states[i
                as int].keycode@.take(j as int).push(hid.local_kbd_states[i as int].keycode[j as int]));
            j = j + 1;
        }
        assert(hid.local_kbd_states[i as int].keycode@.take(6) =~= hid.local_kbd_states[i as int].keycode@);
        modifier = modifier | hid.local_kbd_states[i].modifier;
        i = i + 1;
    }
    let ghost locals = all@;
    let mut j: usize = 0;
    while j < 6
        invariant
            j <= 6,
            all@ == locals + hid.remote_kbd_state.keycode@.take(j as int),
        decreases 6 - j,
    {
        all.push(hid.remote_kbd_state.keycode[j]);
        assert(hid.remote_kbd_state.keycode@.take(j as int + 1) =~= hid.remote_kbd_state.keycode@.take(
            j as int).push(hid.remote_kbd_state.keycode[j as int]));
        j = j + 1;
    }
    assert(hid.remote_kbd_state.keycode@.take(6) =~= hid.remote_kbd_state.keycode@);
    modifier = modifier | hid.remote_kbd_state.modifier;
    let mut acc: Vec<u8> = Vec::new();
    let mut k: usize = 0;
    while k < all.len()
        invariant
            k <= all@.len(),
            acc@ == merge_keys(Seq::empty(), all@.take(k as int)),
            acc@.len() <= 6,
        decreases all@.len() - k,
    {
        let key = all[k];
        assert(all@.take(k as int + 1).drop_last() =~= all@.take(k as int));
        if key != 0 && acc.len() < 6 {
            let mut present = false;
            let mut t: usize = 0;
            while t < acc.len()
                invariant
                    t <= acc@.len(),
                    present <==> exists|q: int| 0 <= q < t && acc@[q] == key,
                decreases acc@.len() - t,
            {
                if acc[t] == key {
                    present = true;
                }
                t = t + 1;
            }
            if !present {
                acc.push(key);
            }
        }
        k = k + 1;
    }
    assert(all@.take(all@.len() as int) =~= all@);
    let mut keycode = [0u8; 6];
    let mut t: usize = 0;
    while t < acc.len()
        invariant
            t <= acc@.len(),
            acc@.len() <= 6,
            forall|q: int| 0 <= q < t ==> keycode[q] == acc@[q],
            forall|q: int| t <= q < 6 ==> keycode[q] == 0,
        decreases acc@.len() - t,
    {
        keycode[t] = acc[t];
        t = t + 1;
    }
    let r = HidKeyboardReport { modifier, reserved: 0, keycode };
    assert(r.keycode =~= combined_report(*hid).keycode);
    r
}

/// The report with no modifier and no key.
pub open spec fn empty_kbd_report() -> HidKeyboardReport {
    HidKeyboardReport { modifier: 0, reserved: 0, keycode: [0u8, 0, 0, 0, 0, 0] }
}

/// This state with every keyboard, local and remote, released.
pub open spec fn released(s: Device) -> Device {
    Device {
        hid: DeviceHid {
            local_kbd_states: [empty_kbd_report(), empty_kbd_report(), empty_kbd_report(), empty_kbd_report()],
            remote_kbd_state: empty_kbd_report(),
            ..s.hid
        },
        ..s
    }
}

/// Clear every keyboard state, local and remote.
pub fn release_all_keys_state(state: &mut Device)
    ensures
        *final(state) == released(*old(state)),
{
    let empty = HidKeyboardReport::empty();
    assert(empty.keycode =~= empty_kbd_report().keycode);
    state.hid.local_kbd_states = [empty, empty, empty, empty];
    state.hid.remote_kbd_state = empty;
    assert(state.hid.local_kbd_states =~= released(*old(state)).hid.local_kbd_states);
}

} // verus!
