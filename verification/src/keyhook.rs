//! The low-level keyboard filter of the full-screen windows: which key
//! presses are swallowed so the student cannot leave the window.
use vstd::prelude::*;

verus! {

/// Virtual-key codes the filter looks at.
pub const VK_TAB: u32 = 0x09;
pub const VK_RETURN: u32 = 0x0D;
pub const VK_ESCAPE: u32 = 0x1B;
pub const VK_LWIN: u32 = 0x5B;
pub const VK_RWIN: u32 = 0x5C;
pub const VK_F1: u32 = 0x70;
pub const VK_F4: u32 = 0x73;
pub const VK_F11: u32 = 0x7A;

/// Window messages for a key going down.
pub const WM_KEYDOWN: u32 = 0x0100;
pub const WM_SYSKEYDOWN: u32 = 0x0104;

/// A key press as the hook sees it: the message, the key, and which
/// modifiers are held.
#[derive(Debug, Clone, Copy, PartialEq, Eq, Structural)]
pub struct KeyEvent {
    pub message: u32,
    pub vk: u32,
    pub alt_down: bool,
    pub ctrl_down: bool,
    pub shift_down: bool,
}

/// Whether the event is a key going down.
pub open spec fn is_key_down(e: KeyEvent) -> bool {
    e.message == WM_KEYDOWN || e.message == WM_SYSKEYDOWN
}

/// The keys the lock screen swallows: the Windows keys, Alt+Tab, Alt+F4,
/// Ctrl+Esc and F1.
pub open spec fn lock_blocks(e: KeyEvent) -> bool {
    is_key_down(e) && {
        ||| e.vk == VK_LWIN || e.vk == VK_RWIN
        ||| e.alt_down && e.vk == VK_TAB
        ||| e.alt_down && e.vk == VK_F4
        ||| e.ctrl_down && e.vk == VK_ESCAPE
        ||| e.vk == VK_F1
    }
}

/// The keys the check-in window swallows: those of the lock screen, and
/// also F11 and Alt+Enter (Ctrl+Shift+Esc is caught as Ctrl+Esc).
pub open spec fn checkin_blocks(e: KeyEvent) -> bool {
    is_key_down(e) && {
        ||| e.vk == VK_LWIN || e.vk == VK_RWIN
        ||| e.alt_down && e.vk == VK_TAB
        ||| e.alt_down && e.vk == VK_F4
        ||| e.ctrl_down && e.vk == VK_ESCAPE
        ||| e.ctrl_down && e.shift_down && e.vk == VK_ESCAPE
        ||| e.vk == VK_F1 || e.vk == VK_F11
        ||| e.alt_down && e.vk == VK_RETURN
    }
}

/// Whether the lock screen swallows a key press.
pub fn lock_blocks_key(e: KeyEvent) -> (r: bool)
    ensures
        r == lock_blocks(e),
{
    if e.message != WM_KEYDOWN && e.message != WM_SYSKEYDOWN {
        return false;
    }
    if e.vk == VK_LWIN || e.vk == VK_RWIN {
        return true;
    }
    if e.alt_down && e.vk == VK_TAB {
        return true;
    }
    if e.alt_down && e.vk == VK_F4 {
        return true;
    }
    if e.ctrl_down && e.vk == VK_ESCAPE {
        return true;
    }
    e.vk == VK_F1
}

/// Whether the check-in window swallows a key press.
pub fn checkin_blocks_key(e: KeyEvent) -> (r: bool)
    ensures
        r == checkin_blocks(e),
{
    if e.message != WM_KEYDOWN && e.message != WM_SYSKEYDOWN {
        return false;
    }
    if e.vk == VK_LWIN || e.vk == VK_RWIN {
        return true;
    }
    if e.alt_down && e.vk == VK_TAB {
        return true;
    }
    if e.alt_down && e.vk == VK_F4 {
        return true;
    }
    if e.ctrl_down && e.vk == VK_ESCAPE {
        return true;
    }
    if e.ctrl_down && e.shift_down && e.vk == VK_ESCAPE {
        return true;
    }
    if e.vk == VK_F1 || e.vk == VK_F11 {
        return true;
    }
    e.alt_down && e.vk == VK_RETURN
}

/// Whether the keyboard hook is installed.
pub struct HookState {
    pub running: bool,
}

impl HookState {
    /// No hook installed yet.
    pub fn new() -> (h: Self)
        ensures
            !h.running,
    {
        HookState { running: false }
    }
}

/// Marks the hook as running and says whether it must be installed: only
/// the first start installs it.
pub fn start_keyboard_hook(state: &mut HookState) -> (install: bool)
    ensures
        install == !old(state).running,
        final(state).running,
{
    let was = state.running;
    state.running = true;
    !was
}

/// Marks the hook as ended (its message loop finished).
pub fn keyboard_hook_stopped(state: &mut HookState)
    ensures
        !final(state).running,
{
    state.running = false;
}

/// The check-in window swallows every key the lock screen swallows.
pub proof fn lemma_checkin_blocks_more(e: KeyEvent)
    ensures
        lock_blocks(e) ==> checkin_blocks(e),
{
}

/// The lock screen swallows every key press that would leave it: a
/// Windows key (0x5B, 0x5C), Alt+Tab (0x09), Alt+F4 (0x73), Ctrl+Esc (0x1B)
/// and F1 (0x70), whether sent as a key or a system key; it lets key
/// releases through, and every key other than these five.
pub proof fn lemma_lock_swallows_escapes(e: KeyEvent)
    ensures
        (e.message == 0x0100 || e.message == 0x0104) && (e.vk == 0x5B || e.vk == 0x5C || (
        e.alt_down && e.vk == 0x09) || (e.alt_down && e.vk == 0x73) || (e.ctrl_down && e.vk
            == 0x1B) || e.vk == 0x70) ==> lock_blocks(e),
        !(e.message == 0x0100 || e.message == 0x0104) ==> !lock_blocks(e),
        !(e.vk == 0x5B || e.vk == 0x5C || e.vk == 0x09 || e.vk == 0x73 || e.vk == 0x1B || e.vk
            == 0x70) ==> !lock_blocks(e),
        !e.alt_down && !e.ctrl_down && e.vk != 0x5B && e.vk != 0x5C && e.vk != 0x70
            ==> !lock_blocks(e),
{
}

} // verus!
