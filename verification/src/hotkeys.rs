//! Global hotkey tables: which action each registration id fires, the
//! modifier flags and virtual-key codes a binding registers with.

use vstd::prelude::*;

use crate::error::BrailError;
use crate::profile::{HotkeyBindings, HotkeyCombo};
use crate::text::chars_of;

verus! {

#[derive(Debug, Clone, Copy, PartialEq, Eq, Structural)]
pub enum HotkeyAction {
    StartStopRecording,
    StartStopStreaming,
    SaveReplay,
    ToggleMicrophoneMute,
    ToggleDesktopAudioMute,
    ToggleWebcam,
    PauseResumeRecording,
    TakeScreenshot,
}

/// First id of the application's private hotkey id range.
pub open spec fn hotkey_id_base() -> int {
    0xB000
}

/// The eight bindings in registration order, paired with their actions.
pub open spec fn binding_order(b: HotkeyBindings) -> Seq<(bool, HotkeyAction)> {
    seq![
        (b.start_stop_recording is Some, HotkeyAction::StartStopRecording),
        (b.start_stop_streaming is Some, HotkeyAction::StartStopStreaming),
        (b.save_replay is Some, HotkeyAction::SaveReplay),
        (b.toggle_microphone_mute is Some, HotkeyAction::ToggleMicrophoneMute),
        (b.toggle_desktop_audio_mute is Some, HotkeyAction::ToggleDesktopAudioMute),
        (b.toggle_webcam is Some, HotkeyAction::ToggleWebcam),
        (b.pause_resume_recording is Some, HotkeyAction::PauseResumeRecording),
        (b.take_screenshot is Some, HotkeyAction::TakeScreenshot),
    ]
}

/// The (id, action) slots of the bound hotkeys among the first `k`
/// bindings: binding number `i` gets id 0xB000 + i.
pub open spec fn slots_upto(order: Seq<(bool, HotkeyAction)>, k: int) -> Seq<(i32, HotkeyAction)>
    decreases k,
{
    if k <= 0 {
        Seq::empty()
    } else {
        let rest = slots_upto(order, k - 1);
        if order[k - 1].0 {
            rest.push(((hotkey_id_base() + k - 1) as i32, order[k - 1].1))
        } else {
            rest
        }
    }
}

/// The binding of an action.
pub open spec fn binding_of(b: HotkeyBindings, action: HotkeyAction) -> Option<HotkeyCombo> {
    match action {
        HotkeyAction::StartStopRecording => b.start_stop_recording,
        HotkeyAction::StartStopStreaming => b.start_stop_streaming,
        HotkeyAction::SaveReplay => b.save_replay,
        HotkeyAction::ToggleMicrophoneMute => b.toggle_microphone_mute,
        HotkeyAction::ToggleDesktopAudioMute => b.toggle_desktop_audio_mute,
        HotkeyAction::ToggleWebcam => b.toggle_webcam,
        HotkeyAction::PauseResumeRecording => b.pause_resume_recording,
        HotkeyAction::TakeScreenshot => b.take_screenshot,
    }
}

/// The combination bound to `action`, if any.
pub fn binding_for(bindings: &HotkeyBindings, action: HotkeyAction) -> (r: Option<&HotkeyCombo>)
    ensures
        r is None <==> binding_of(*bindings, action) is None,
        r matches Some(c) ==> binding_of(*bindings, action) == Some(*c),
{
    match action {
        HotkeyAction::StartStopRecording => bindings.start_stop_recording.as_ref(),
        HotkeyAction::StartStopStreaming => bindings.start_stop_streaming.as_ref(),
        HotkeyAction::SaveReplay => bindings.save_replay.as_ref(),
        HotkeyAction::ToggleMicrophoneMute => bindings.toggle_microphone_mute.as_ref(),
        HotkeyAction::ToggleDesktopAudioMute => bindings.toggle_desktop_audio_mute.as_ref(),
        HotkeyAction::ToggleWebcam => bindings.toggle_webcam.as_ref(),
        HotkeyAction::PauseResumeRecording => bindings.pause_resume_recording.as_ref(),
        HotkeyAction::TakeScreenshot => bindings.take_screenshot.as_ref(),
    }
}

/// The registration ids and actions of every bound hotkey, in binding
/// order; unbound ones get no id.
pub fn hotkey_slots(bindings: &HotkeyBindings) -> (v: Vec<(i32, HotkeyAction)>)
    ensures
        v@ == slots_upto(binding_order(*bindings), 8),
{
    let mut present: Vec<(bool, HotkeyAction)> = Vec::new();
    present.push((bindings.start_stop_recording.is_some(), HotkeyAction::StartStopRecording));
    present.push((bindings.start_stop_streaming.is_some(), HotkeyAction::StartStopStreaming));
    present.push((bindings.save_replay.is_some(), HotkeyAction::SaveReplay));
    present.push((bindings.toggle_microphone_mute.is_some(), HotkeyAction::ToggleMicrophoneMute));
    present.push((bindings.toggle_desktop_audio_mute.is_some(), HotkeyAction::ToggleDesktopAudioMute));
    present.push((bindings.toggle_webcam.is_some(), HotkeyAction::ToggleWebcam));
    present.push((bindings.pause_resume_recording.is_some(), HotkeyAction::PauseResumeRecording));
    present.push((bindings.take_screenshot.is_some(), HotkeyAction::TakeScreenshot));
    assert(present@ == binding_order(*bindings));
    let mut v: Vec<(i32, HotkeyAction)> = Vec::new();
    let mut i: usize = 0;
    while i < 8
        invariant
            0 <= i <= 8,
            present@ == binding_order(*bindings),
            v@ == slots_upto(present@, i as int),
        decreases 8 - i,
    {
        let (bound, action) = present[i];
        if bound {
            v.push((0xB000 + i as i32, action));
        }
        i += 1;
    }
    v
}

/// The action of the first slot with registration id `id`.
pub fn action_for_hotkey(slots: &Vec<(i32, HotkeyAction)>, id: i32) -> (r: Option<HotkeyAction>)
    ensures
        r is None <==> forall|j: int| 0 <= j < slots@.len() ==> (#[trigger] slots@[j]).0 != id,
        r matches Some(a) ==> exists|j: int| 0 <= j < slots@.len() && (#[trigger] slots@[j]) == (id, a)
            && forall|k: int| 0 <= k < j ==> (#[trigger] slots@[k]).0 != id,
{
    let mut i: usize = 0;
    while i < slots.len()
        invariant
            0 <= i <= slots@.len(),
            forall|k: int| 0 <= k < i ==> (#[trigger] slots@[k]).0 != id,
        decreases slots@.len() - i,
    {
        let (sid, action) = slots[i];
        if sid == id {
            assert(slots@[i as int] == (id, action));
            return Some(action);
        }
        i += 1;
    }
    None
}

/// The Win32 modifier flags of a combination: no-repeat always, plus
/// Alt (1), Control (2), Shift (4) and Windows (8) as set.
pub open spec fn modifier_flags(ctrl: bool, shift: bool, alt: bool, win: bool) -> u32 {
    (0x4000 + (if alt { 1int } else { 0 }) + (if ctrl { 2int } else { 0 }) + (if shift { 4int } else { 0 })
        + (if win { 8int } else { 0 })) as u32
}

pub fn hotkey_modifiers(combo: &HotkeyCombo) -> (m: u32)
    ensures
        m == modifier_flags(combo.ctrl, combo.shift, combo.alt, combo.win),
{
    let mut m: u32 = 0x4000;
    if combo.alt {
        m = m + 1;
    }
    if combo.ctrl {
        m = m + 2;
    }
    if combo.shift {
        m = m + 4;
    }
    if combo.win {
        m = m + 8;
    }
    m
}

/// The virtual-key code of a key name: "F1" to "F12" map to 0x70..0x7B,
/// a single ASCII letter or digit maps to its upper-case code.
pub open spec fn virtual_key(name: Seq<char>) -> Option<u16> {
    if name.len() == 2 && name[0] == 'F' && '1' <= name[1] && name[1] <= '9' {
        Some((0x70 + (name[1] as u32 - '1' as u32)) as u16)
    } else if name.len() == 3 && name[0] == 'F' && name[1] == '1' && '0' <= name[2] && name[2] <= '2' {
        Some((0x79 + (name[2] as u32 - '0' as u32)) as u16)
    } else if name.len() == 1 && '0' <= name[0] && name[0] <= '9' {
        Some(name[0] as u16)
    } else if name.len() == 1 && 'A' <= name[0] && name[0] <= 'Z' {
        Some(name[0] as u16)
    } else if name.len() == 1 && 'a' <= name[0] && name[0] <= 'z' {
        Some((name[0] as u32 - 32) as u16)
    } else {
        None
    }
}

/// Maps a key name from the hotkey picker to its Win32 virtual-key code.
pub fn virtual_key_from_name(name: &str) -> (r: Option<u16>)
    ensures
        r == virtual_key(name@),
{
    let c = chars_of(name);
    if c.len() == 2 && c[0] == 'F' && '1' <= c[1] && c[1] <= '9' {
        Some((0x70 + (c[1] as u32 - '1' as u32)) as u16)
    } else if c.len() == 3 && c[0] == 'F' && c[1] == '1' && '0' <= c[2] && c[2] <= '2' {
        Some((0x79 + (c[2] as u32 - '0' as u32)) as u16)
    } else if c.len() == 1 && '0' <= c[0] && c[0] <= '9' {
        Some(c[0] as u32 as u16)
    } else if c.len() == 1 && 'A' <= c[0] && c[0] <= 'Z' {
        Some(c[0] as u32 as u16)
    } else if c.len() == 1 && 'a' <= c[0] && c[0] <= 'z' {
        Some((c[0] as u32 - 32) as u16)
    } else {
        None
    }
}

/// An action's name as error reports show it.
pub open spec fn action_name(a: HotkeyAction) -> Seq<char> {
    match a {
        HotkeyAction::StartStopRecording => "StartStopRecording"@,
        HotkeyAction::StartStopStreaming => "StartStopStreaming"@,
        HotkeyAction::SaveReplay => "SaveReplay"@,
        HotkeyAction::ToggleMicrophoneMute => "ToggleMicrophoneMute"@,
        HotkeyAction::ToggleDesktopAudioMute => "ToggleDesktopAudioMute"@,
        HotkeyAction::ToggleWebcam => "ToggleWebcam"@,
        HotkeyAction::PauseResumeRecording => "PauseResumeRecording"@,
        HotkeyAction::TakeScreenshot => "TakeScreenshot"@,
    }
}

fn action_name_str(a: HotkeyAction) -> (s: &'static str)
    ensures
        s@ == action_name(a),
{
    match a {
        HotkeyAction::StartStopRecording => "StartStopRecording",
        HotkeyAction::StartStopStreaming => "StartStopStreaming",
        HotkeyAction::SaveReplay => "SaveReplay",
        HotkeyAction::ToggleMicrophoneMute => "ToggleMicrophoneMute",
        HotkeyAction::ToggleDesktopAudioMute => "ToggleDesktopAudioMute",
        HotkeyAction::ToggleWebcam => "ToggleWebcam",
        HotkeyAction::PauseResumeRecording => "PauseResumeRecording",
        HotkeyAction::TakeScreenshot => "TakeScreenshot",
    }
}

/// Why a binding's key cannot be registered: its name is not a key.
pub fn unknown_key_message(key: &str) -> (m: String)
    ensures
        m@ == "unknown key name '"@ + key@ + "'"@,
{
    let mut m = String::from_str("unknown key name '");
    m.append(key);
    m.append("'");
    m
}

/// The error reported for a hotkey that could not be registered; the
/// other bindings still are.
pub fn registration_error(action: HotkeyAction, detail: &str) -> (e: BrailError)
    ensures
        e matches BrailError::HotkeyRegistrationFailed(m) && m@ == action_name(action) + ": "@ + detail@,
{
    let mut m = String::from_str(action_name_str(action));
    m.append(": ");
    m.append(detail);
    BrailError::HotkeyRegistrationFailed(m)
}

/// Books one binding's registration attempt. `result` is `None` when the
/// binding's key name is not a key, else what registering it with the
/// system returned. A success joins the registered slots; a failure leaves
/// them as they were and is answered with the error to report, so the
/// other bindings still get their turn.
pub fn record_registration(
    registered: &mut Vec<(i32, HotkeyAction)>,
    id: i32,
    action: HotkeyAction,
    key: &str,
    result: Option<Result<(), String>>,
) -> (e: Option<BrailError>)
    ensures
        match result {
            Some(Ok(())) => final(registered)@ == old(registered)@.push((id, action)) && e is None,
            Some(Err(d)) => {
                &&& final(registered)@ == old(registered)@
                &&& e matches Some(BrailError::HotkeyRegistrationFailed(m)) && m@ == action_name(action) + ": "@ + d@
            },
            None => {
                &&& final(registered)@ == old(registered)@
                &&& e matches Some(BrailError::HotkeyRegistrationFailed(m)) && m@ == action_name(action) + ": "@ + (
                "unknown key name '"@ + key@ + "'"@)
            },
        },
{
    match result {
        Some(Ok(())) => {
            registered.push((id, action));
            None
        },
        Some(Err(d)) => Some(registration_error(action, d.as_str())),
        None => {
            let m = unknown_key_message(key);
            Some(registration_error(action, m.as_str()))
        },
    }
}

/// Every slot's id lies in the application's range below `0xB000 + k`,
/// and ids strictly increase, so no two bindings share one.
proof fn lemma_slot_ids(order: Seq<(bool, HotkeyAction)>, k: int)
    requires
        0 <= k <= order.len(),
        k <= 8,
    ensures
        forall|i: int| 0 <= i < slots_upto(order, k).len() ==> hotkey_id_base() <= (#[trigger] slots_upto(order, k)[i]).0
            < hotkey_id_base() + k,
        forall|i: int, j: int| 0 <= i < j < slots_upto(order, k).len() ==> (#[trigger] slots_upto(order, k)[i]).0
            < (#[trigger] slots_upto(order, k)[j]).0,
    decreases k,
{
    if k > 0 {
        lemma_slot_ids(order, k - 1);
        let rest = slots_upto(order, k - 1);
        let s = slots_upto(order, k);
        if order[k - 1].0 {
            let id = (hotkey_id_base() + k - 1) as i32;
            assert(id == hotkey_id_base() + k - 1);
            assert(s == rest.push((id, order[k - 1].1)));
            assert forall|i: int| 0 <= i < s.len() implies hotkey_id_base() <= (#[trigger] s[i]).0 < hotkey_id_base() + k by {
                if i < rest.len() {
                    assert(s[i] == rest[i]);
                }
            }
            assert forall|i: int, j: int| 0 <= i < j < s.len() implies (#[trigger] s[i]).0 < (#[trigger] s[j]).0 by {
                assert(s[i] == rest[i]);
                if j < rest.len() {
                    assert(s[j] == rest[j]);
                }
            }
        } else {
            assert(s == rest);
        }
    }
}

/// Each bound hotkey gets its own id in the application's range, and a
/// press of that id is answered with its action.
pub proof fn law_hotkey_ids_are_distinct(b: HotkeyBindings)
    ensures
        forall|i: int, j: int| 0 <= i < j < slots_upto(binding_order(b), 8).len() ==> (#[trigger] slots_upto(
            binding_order(b),
            8,
        )[i]).0 != (#[trigger] slots_upto(binding_order(b), 8)[j]).0,
        forall|i: int| 0 <= i < slots_upto(binding_order(b), 8).len() ==> 0xB000 <= (#[trigger] slots_upto(
            binding_order(b),
            8,
        )[i]).0 < 0xB008,
{
    lemma_slot_ids(binding_order(b), 8);
}

} // verus!
