//! What the virtual-keyboard backend sends to the compositor for each command
//! of the panel.

use vstd::prelude::*;

verus! {

/// Commands the panel sends to the virtual-keyboard backend.
#[derive(Debug, Clone, Copy, PartialEq, Eq, Structural)]
pub enum VkCommand {
    /// Press then release an evdev keycode.
    Tap(u32),
    /// Set the currently-held modifier mask (Shift=1, Ctrl=4, Alt=8, Super=64 — xkb bitfield).
    Modifiers(u32),
    Press(u32),
    Release(u32),
}

/// One request on `zwp_virtual_keyboard_v1`.
#[derive(Debug, Clone, Copy, PartialEq, Eq, Structural)]
pub enum VkRequest {
    /// `key(time, key, state)`: state 1 is pressed, 0 released.
    Key { time: u32, key: u32, state: u32 },
    /// `modifiers(depressed, latched, locked, group)`.
    Modifiers { depressed: u32, latched: u32, locked: u32, group: u32 },
}

/// The requests that carry out one command at time `time` (milliseconds).
pub open spec fn spec_requests(cmd: VkCommand, time: u32) -> Seq<VkRequest> {
    match cmd {
        VkCommand::Tap(keycode) => seq![
            VkRequest::Key { time, key: keycode, state: 1 },
            VkRequest::Key { time: ((time + 1) % 0x1_0000_0000) as u32, key: keycode, state: 0 },
        ],
        VkCommand::Press(keycode) => seq![VkRequest::Key { time, key: keycode, state: 1 }],
        VkCommand::Release(keycode) => seq![VkRequest::Key { time, key: keycode, state: 0 }],
        VkCommand::Modifiers(mask) => seq![
            VkRequest::Modifiers { depressed: mask, latched: 0, locked: 0, group: 0 },
        ],
    }
}

/// Translates a command into virtual-keyboard requests, stamped with `time`.
pub fn handle_cmd(cmd: VkCommand, time: u32) -> (r: Vec<VkRequest>)
    ensures
        r@ == spec_requests(cmd, time),
{
    let mut out: Vec<VkRequest> = Vec::new();
    match cmd {
        VkCommand::Tap(keycode) => {
            out.push(VkRequest::Key { time, key: keycode, state: 1 });
            out.push(VkRequest::Key { time: time.wrapping_add(1), key: keycode, state: 0 });
        },
        VkCommand::Press(keycode) => out.push(VkRequest::Key { time, key: keycode, state: 1 }),
        VkCommand::Release(keycode) => out.push(VkRequest::Key { time, key: keycode, state: 0 }),
        VkCommand::Modifiers(mask) => {
            out.push(VkRequest::Modifiers { depressed: mask, latched: 0, locked: 0, group: 0 });
        },
    }
    assert(out@ =~= spec_requests(cmd, time));
    out
}

/// The 32-bit millisecond timestamp of a clock reading: the milliseconds since
/// the Unix epoch, truncated to 32 bits, or 0 when the clock is before the
/// epoch (`None`).
pub fn timestamp_ms(since_epoch_ms: Option<u128>) -> (r: u32)
    ensures
        r == match since_epoch_ms {
            Some(ms) => ms % 0x1_0000_0000,
            None => 0,
        },
{
    match since_epoch_ms {
        Some(ms) => {
            assert(ms as u32 == ms % 0x1_0000_0000) by (bit_vector);
            ms as u32
        },
        None => 0,
    }
}

/// A tap presses and then releases the same key, the release one millisecond
/// (modulo 2^32) after the press; a modifier command only sets the depressed
/// mask.
pub proof fn lemma_tap_presses_then_releases(keycode: u32, time: u32)
    ensures
        spec_requests(VkCommand::Tap(keycode), time).len() == 2,
        spec_requests(VkCommand::Tap(keycode), time)[0] == (VkRequest::Key { time, key: keycode, state: 1 }),
        spec_requests(VkCommand::Tap(keycode), time)[1] matches VkRequest::Key { time: t2, key: k2, state: s2 }
            && k2 == keycode && s2 == 0 && (t2 == time + 1 || (time == u32::MAX && t2 == 0)),
{
}

} // verus!
