//! The window's message plumbing: how a `WM_COMMAND` parameter splits into
//! its parts, and what the message loop does with each `GetMessageW`
//! result.
use vstd::prelude::*;

verus! {

pub const WINDOW_CLASS: &'static str = "ChatGPTTimeZoneLauncherWindow";
pub const WINDOW_TITLE: &'static str = "Codex 时区启动器";
pub const CLIENT_WIDTH: i32 = 760;
pub const CLIENT_HEIGHT: i32 = 520;

/// The control id (low word) and notification code (high word of the low
/// 32 bits) of a `WM_COMMAND` `wParam`.
pub fn split_command_wparam(wparam: usize) -> (r: (i32, u32))
    ensures
        r.0 == wparam % 65536,
        r.1 == (wparam / 65536) % 65536,
{
    let low = wparam & 0xffff;
    let high = (wparam >> 16) & 0xffff;
    assert(low == wparam % 65536 && high == (wparam / 65536) % 65536) by (bit_vector)
        requires
            low == wparam & 0xffff,
            high == (wparam >> 16) & 0xffff,
    ;
    (low as i32, high as u32)
}

/// What the message loop does next.
#[derive(Clone, Debug, PartialEq, Eq)]
pub enum LoopStep {
    /// `WM_QUIT` arrived: leave the loop.
    Quit,
    /// `GetMessageW` failed: stop with this message.
    Fail(String),
    /// Translate and dispatch the message.
    Dispatch,
}

pub open spec fn msg_message_loop_failed() -> Seq<char> {
    "Windows 消息循环发生错误。"@
}

/// `GetMessageW` returns 0 for `WM_QUIT`, -1 on failure and another value
/// for a message to dispatch.
pub fn message_loop_step(result: i32) -> (r: LoopStep)
    ensures
        result == 0 ==> r is Quit,
        result == -1 ==> (r matches LoopStep::Fail(message) && message@ == msg_message_loop_failed()),
        result != 0 && result != -1 ==> r is Dispatch,
{
    if result == 0 {
        LoopStep::Quit
    } else if result == -1 {
        LoopStep::Fail("Windows 消息循环发生错误。".to_owned())
    } else {
        LoopStep::Dispatch
    }
}

} // verus!
