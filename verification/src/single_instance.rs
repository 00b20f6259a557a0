//! The name of the launcher's single-instance mutex and the check made on
//! any such name.
use vstd::prelude::*;
use crate::text::{chars_of, push_str};

verus! {

/// The mutex that only one interactive launcher may hold.
pub const LAUNCHER_MUTEX_NAME: &'static str = "Global\\ChatGPTTimeZoneLauncher-SingleInstance-v1";

pub open spec fn msg_invalid_mutex_name() -> Seq<char> {
    "单实例锁名称无效。"@
}

/// A mutex name must be non-empty and free of NUL characters.
pub fn check_mutex_name(name: &str) -> (r: Result<(), String>)
    ensures
        r is Ok <==> (name@.len() > 0 && !name@.contains('\0')),
        r matches Err(message) ==> message@ == msg_invalid_mutex_name(),
{
    let chars = chars_of(name);
    if chars.len() == 0 {
        return Err("单实例锁名称无效。".to_owned());
    }
    let mut i: usize = 0;
    while i < chars.len()
        invariant
            0 <= i <= chars.len(),
            chars@ == name@,
            forall|k: int| 0 <= k < i ==> chars@[k] != '\0',
        decreases chars.len() - i,
    {
        if chars[i] == '\0' {
            assert(name@.contains('\0')) by {
                assert(name@[i as int] == '\0');
            }
            return Err("单实例锁名称无效。".to_owned());
        }
        i += 1;
    }
    Ok(())
}

/// The message for a mutex that could not be created, with the system's
/// description of the error.
pub fn mutex_creation_message(os_error: &str) -> (r: String)
    ensures
        r@ == "无法创建单实例锁："@ + os_error@ + "。"@,
{
    let mut message = String::new();
    push_str(&mut message, "无法创建单实例锁：");
    push_str(&mut message, os_error);
    push_str(&mut message, "。");
    message
}

} // verus!
