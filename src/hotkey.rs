use vstd::prelude::*;

verus! {

/// The key-down message of the low-level keyboard hook.
pub const WM_KEYDOWN: u32 = 256;

/// The trigger key, `D`.
pub const VK_D: u32 = 68;

/// The modifier key, the left Windows key.
pub const VK_LWIN: i32 = 91;

/// What the keyboard hook does with one event.
#[derive(Clone, Copy, Debug, PartialEq, Eq, Structural)]
pub enum HookDecision {
    /// Hand the event on down the input chain, untouched.
    PassThrough,
    /// The trigger key went down: ask whether the modifier is held, then
    /// decide with `modifier_decision`.
    QueryModifier,
    /// The chord was pressed: hide the windows on the active monitor and
    /// swallow the event.
    Consume,
}

/// The hook is handed a key-down of the trigger key.
pub open spec fn is_trigger_event(code: i32, message: usize, vk_code: u32) -> bool {
    code >= 0 && message == WM_KEYDOWN as usize && vk_code == VK_D
}

/// A key state reports the key as held when its high bit is set.
pub open spec fn is_held(key_state: i16) -> bool {
    key_state < 0
}

/// The first step of the hook: a negative `code` carries no event and is
/// passed on unread; any event but a key-down of the trigger key is passed on.
pub fn key_event_decision(code: i32, message: usize, vk_code: u32) -> (r: HookDecision)
    ensures
        r == (if is_trigger_event(code, message, vk_code) {
            HookDecision::QueryModifier
        } else {
            HookDecision::PassThrough
        }),
{
    if code < 0 {
        return HookDecision::PassThrough;
    }
    if message == WM_KEYDOWN as usize && vk_code == VK_D {
        HookDecision::QueryModifier
    } else {
        HookDecision::PassThrough
    }
}

/// The second step, given the modifier's state at the moment of the event:
/// without the modifier held the event is passed on and nothing is hidden.
pub fn modifier_decision(key_state: i16) -> (r: HookDecision)
    ensures
        r == (if is_held(key_state) {
            HookDecision::Consume
        } else {
            HookDecision::PassThrough
        }),
        !is_held(key_state) ==> r == HookDecision::PassThrough,
{
    if key_state < 0 {
        HookDecision::Consume
    } else {
        HookDecision::PassThrough
    }
}

} // verus!
