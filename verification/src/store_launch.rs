//! Launching the Microsoft Store build of the client: the environment block
//! handed to the package, the debugger command line that brings the
//! launcher back as a thread resumer, and the checks that the resumer
//! applies to its arguments.
use vstd::prelude::*;
use crate::encoding::{
    decimal, encode_utf16, encode_utf16_str, parse_u32, parse_u32_spec, push_decimal,
};
use crate::text::{
    char_is_ascii_alphanumeric, chars_of, chars_start_with, is_ascii_alphanumeric, push_char,
    push_str, starts_with, text_option, utf8_len, utf8_len_exceeds,
};
use crate::timezone::{timezone_verdict, validate_timezone};

verus! {

/// The namespace and prefix of every handshake event the launcher creates.
pub const RESUME_EVENT_PREFIX: &'static str = "Local\\ChatGPTTimeZoneLauncher-";

/// The longest handshake event name accepted, in UTF-8 bytes.
pub const MAX_EVENT_NAME_BYTES: usize = 128;

/// The flag that carries the handshake event name to the resumer.
pub const RESUME_EVENT_FLAG: &'static str = "--resume-event";

/// The flag with which Windows passes the suspended thread to the debugger.
pub const THREAD_ID_FLAG: &'static str = "-tid";

/// What the resumer is asked to do: resume `thread_id`, then signal the
/// event `event_name`.
#[derive(Clone, Debug, PartialEq, Eq)]
pub struct ResumeRequest {
    pub thread_id: u32,
    pub event_name: String,
}

pub open spec fn is_event_name_char(c: char) -> bool {
    is_ascii_alphanumeric(c) || c == '\\' || c == '-'
}

/// A handshake event name the launcher owns: it starts with the prefix, is
/// at most 128 bytes long and holds only ASCII letters, digits, `\` and `-`.
pub open spec fn is_valid_event_name(name: Seq<char>) -> bool {
    &&& starts_with(name, RESUME_EVENT_PREFIX@)
    &&& utf8_len(name) <= 128
    &&& forall|i: int| 0 <= i < name.len() ==> is_event_name_char(#[trigger] name[i])
}

pub fn valid_event_name(value: &str) -> (r: bool)
    ensures
        r == is_valid_event_name(value@),
{
    let chars = chars_of(value);
    let prefix = chars_of(RESUME_EVENT_PREFIX);
    if !chars_start_with(chars.as_slice(), prefix.as_slice()) {
        return false;
    }
    if utf8_len_exceeds(chars.as_slice(), MAX_EVENT_NAME_BYTES) {
        return false;
    }
    let mut i: usize = 0;
    while i < chars.len()
        invariant
            0 <= i <= chars.len(),
            chars@ == value@,
            forall|k: int| 0 <= k < i ==> is_event_name_char(#[trigger] chars@[k]),
        decreases chars.len() - i,
    {
        let c = chars[i];
        if !(char_is_ascii_alphanumeric(c) || c == '\\' || c == '-') {
            assert(!is_event_name_char(chars@[i as int]));
            return false;
        }
        i += 1;
    }
    true
}

// ---------------------------------------------------------------------------
// The package environment
// ---------------------------------------------------------------------------

/// The environment block for a zone: the single variable `TZ=<zone>`,
/// closed by the two NULs that end a Win32 environment block.
pub open spec fn timezone_environment_text(zone: Seq<char>) -> Seq<char> {
    "TZ="@ + zone + seq!['\0', '\0']
}

/// The UTF-16 environment block that sets only `TZ` to the validated zone.
pub fn build_timezone_environment(timezone: &str) -> (r: Result<Vec<u16>, String>)
    ensures
        match timezone_verdict(timezone@) {
            Ok(zone) => r matches Ok(block) && block@ == encode_utf16(
                timezone_environment_text(zone),
            ),
            Err(message) => r matches Err(e) && e@ == message,
        },
{
    let zone = match validate_timezone(timezone) {
        Ok(zone) => zone,
        Err(message) => return Err(message),
    };
    let mut text = String::new();
    push_str(&mut text, "TZ=");
    push_str(&mut text, zone.as_str());
    push_char(&mut text, '\0');
    push_char(&mut text, '\0');
    assert(text@ =~= timezone_environment_text(zone@));
    Ok(encode_utf16_str(text.as_str()))
}

// ---------------------------------------------------------------------------
// The debugger command line
// ---------------------------------------------------------------------------

pub open spec fn msg_invalid_event_name() -> Seq<char> {
    "线程恢复事件名称无效。"@
}

pub open spec fn msg_launcher_path_not_unicode() -> Seq<char> {
    "启动器路径包含无效 Unicode。"@
}

pub open spec fn msg_launcher_path_quote() -> Seq<char> {
    "启动器路径包含不允许的字符。"@
}

/// The command line registered as the package's debugger: the quoted
/// launcher path, then the event flag and the event name.
pub open spec fn debugger_command_text(executable: Seq<char>, event_name: Seq<char>) -> Seq<char> {
    seq!['"'] + executable + "\" --resume-event "@ + event_name
}

/// What `build_debugger_command_line` answers.
pub open spec fn debugger_command_verdict(executable: Option<Seq<char>>, event_name: Seq<char>) -> Result<
    Seq<char>,
    Seq<char>,
> {
    if !is_valid_event_name(event_name) {
        Err(msg_invalid_event_name())
    } else {
        match executable {
            None => Err(msg_launcher_path_not_unicode()),
            Some(path) => if path.contains('"') {
                Err(msg_launcher_path_quote())
            } else {
                Ok(debugger_command_text(path, event_name))
            },
        }
    }
}

/// The debugger command line for the launcher at `executable` (its path
/// as text, `None` when the path is not valid Unicode) and the handshake
/// event `event_name`.
pub fn build_debugger_command_line(executable: Option<&str>, event_name: &str) -> (r: Result<
    String,
    String,
>)
    ensures
        crate::text::text_result(r) == debugger_command_verdict(
            match executable {
                Some(p) => Some(p@),
                None => None,
            },
            event_name@,
        ),
{
    if !valid_event_name(event_name) {
        return Err("线程恢复事件名称无效。".to_owned());
    }
    let path = match executable {
        Some(path) => path,
        None => return Err("启动器路径包含无效 Unicode。".to_owned()),
    };
    let chars = chars_of(path);
    let mut i: usize = 0;
    while i < chars.len()
        invariant
            0 <= i <= chars.len(),
            chars@ == path@,
            executable == Some(path),
            is_valid_event_name(event_name@),
            forall|k: int| 0 <= k < i ==> chars@[k] != '"',
        decreases chars.len() - i,
    {
        if chars[i] == '"' {
            assert(chars@.contains('"')) by {
                assert(chars@[i as int] == '"');
            }
            return Err("启动器路径包含不允许的字符。".to_owned());
        }
        i += 1;
    }
    let mut command = String::new();
    push_char(&mut command, '"');
    push_str(&mut command, path);
    push_str(&mut command, "\" --resume-event ");
    push_str(&mut command, event_name);
    assert(command@ =~= debugger_command_text(path@, event_name@));
    Ok(command)
}

// ---------------------------------------------------------------------------
// The resumer's arguments
// ---------------------------------------------------------------------------

/// The text of each argument; `None` for one that is not valid Unicode.
pub open spec fn argument_texts(arguments: Seq<Option<String>>) -> Seq<Option<Seq<char>>> {
    arguments.map_values(|a: Option<String>| text_option(a))
}

/// `k` is the first position that holds `flag`.
pub open spec fn is_first_flag(args: Seq<Option<Seq<char>>>, flag: Seq<char>, k: int) -> bool {
    &&& 0 <= k < args.len()
    &&& args[k] == Some(flag)
    &&& forall|j: int| 0 <= j < k ==> #[trigger] args[j] != Some(flag)
}

/// The argument after the first occurrence of `flag`, when there is one
/// and it is valid Unicode.
pub open spec fn value_after(args: Seq<Option<Seq<char>>>, flag: Seq<char>) -> Option<Seq<char>> {
    if exists|k: int| is_first_flag(args, flag, k) {
        let k = choose|k: int| is_first_flag(args, flag, k);
        if k + 1 < args.len() {
            args[k + 1]
        } else {
            None
        }
    } else {
        None
    }
}

/// What `parse_resume_request` answers: the thread id after `-tid` and the
/// event name after `--resume-event`, when the id is a non-zero `u32` and
/// the event is one the launcher owns.
pub open spec fn resume_request_verdict(args: Seq<Option<Seq<char>>>) -> Option<(u32, Seq<char>)> {
    match value_after(args, RESUME_EVENT_FLAG@) {
        None => None,
        Some(event_name) => match value_after(args, THREAD_ID_FLAG@) {
            None => None,
            Some(thread_text) => match parse_u32_spec(thread_text) {
                None => None,
                Some(thread_id) => if thread_id != 0 && is_valid_event_name(event_name) {
                    Some((thread_id, event_name))
                } else {
                    None
                },
            },
        },
    }
}

proof fn lemma_first_flag_unique(args: Seq<Option<Seq<char>>>, flag: Seq<char>, k: int, m: int)
    requires
        is_first_flag(args, flag, k),
        is_first_flag(args, flag, m),
    ensures
        k == m,
{
    if k < m {
        assert(args[k] != Some(flag));
    } else if m < k {
        assert(args[m] != Some(flag));
    }
}

/// The argument after the first `flag` (see `value_after`).
fn argument_after<'a>(arguments: &'a [Option<String>], flag: &str) -> (r: Option<&'a String>)
    ensures
        match r {
            Some(s) => value_after(argument_texts(arguments@), flag@) == Some(s@),
            None => value_after(argument_texts(arguments@), flag@) is None,
        },
{
    let ghost args = argument_texts(arguments@);
    let wanted = flag.to_owned();
    let mut i: usize = 0;
    while i < arguments.len()
        invariant
            0 <= i <= arguments.len(),
            args == argument_texts(arguments@),
            wanted@ == flag@,
            forall|j: int| 0 <= j < i ==> #[trigger] args[j] != Some(flag@),
        decreases arguments.len() - i,
    {
        let is_flag = match &arguments[i] {
            Some(a) => *a == wanted,
            None => false,
        };
        if is_flag {
            proof {
                assert(is_first_flag(args, flag@, i as int));
                let k = choose|k: int| is_first_flag(args, flag@, k);
                lemma_first_flag_unique(args, flag@, i as int, k);
            }
            if i + 1 < arguments.len() {
                return match &arguments[i + 1] {
                    Some(value) => Some(value),
                    None => None,
                };
            }
            return None;
        }
        assert(args[i as int] != Some(flag@));
        i += 1;
    }
    assert(!exists|k: int| is_first_flag(args, flag@, k));
    None
}

/// Reads the resumer's request from the launcher's arguments (each
/// argument as text, `None` when it is not valid Unicode).
pub fn parse_resume_request(arguments: &[Option<String>]) -> (r: Option<ResumeRequest>)
    ensures
        match resume_request_verdict(argument_texts(arguments@)) {
            Some((thread_id, event_name)) => r matches Some(request) && request.thread_id
                == thread_id && request.event_name@ == event_name,
            None => r is None,
        },
{
    let event_name = match argument_after(arguments, RESUME_EVENT_FLAG) {
        Some(value) => value,
        None => return None,
    };
    let thread_text = match argument_after(arguments, THREAD_ID_FLAG) {
        Some(value) => value,
        None => return None,
    };
    let thread_id = match parse_u32(thread_text.as_str()) {
        Some(value) => value,
        None => return None,
    };
    if thread_id == 0 || !valid_event_name(event_name.as_str()) {
        return None;
    }
    Some(ResumeRequest { thread_id, event_name: event_name.clone() })
}

pub open spec fn msg_invalid_resume_request() -> Seq<char> {
    "线程恢复请求无效。"@
}

/// The check the resumer makes before touching any handle: a non-zero
/// thread and an event the launcher owns.
pub fn check_resume_request(request: &ResumeRequest) -> (r: Result<(), String>)
    ensures
        r is Ok <==> (request.thread_id != 0 && is_valid_event_name(request.event_name@)),
        r matches Err(message) ==> message@ == msg_invalid_resume_request(),
{
    if request.thread_id == 0 || !valid_event_name(request.event_name.as_str()) {
        return Err("线程恢复请求无效。".to_owned());
    }
    Ok(())
}

/// The name of a fresh handshake event: the prefix, the launcher's process
/// id and a timestamp in nanoseconds.
pub open spec fn resume_event_name_text(process_id: u32, timestamp: u128) -> Seq<char> {
    RESUME_EVENT_PREFIX@ + decimal(process_id as nat) + seq!['-'] + decimal(timestamp as nat)
}

pub fn resume_event_name(process_id: u32, timestamp: u128) -> (r: String)
    ensures
        r@ == resume_event_name_text(process_id, timestamp),
{
    let mut name = String::new();
    push_str(&mut name, RESUME_EVENT_PREFIX);
    push_decimal(&mut name, process_id as u128);
    push_char(&mut name, '-');
    push_decimal(&mut name, timestamp);
    name
}

} // verus!

verus! {

// ---------------------------------------------------------------------------
// Laws
// ---------------------------------------------------------------------------

proof fn lemma_prefix_text()
    ensures
        RESUME_EVENT_PREFIX@.len() == 30,
        RESUME_EVENT_PREFIX@[0] == 'L',
        forall|i: int| 0 <= i < 30 ==> is_event_name_char(#[trigger] RESUME_EVENT_PREFIX@[i]),
{
    reveal_strlit("Local\\ChatGPTTimeZoneLauncher-");
    assert forall|i: int| 0 <= i < 30 implies is_event_name_char(
        #[trigger] RESUME_EVENT_PREFIX@[i],
    ) by {
        reveal_strlit("Local\\ChatGPTTimeZoneLauncher-");
    }
}

/// Every handshake event name the launcher generates is one the resumer
/// accepts, whatever the process id and timestamp.
pub proof fn lemma_generated_event_names_are_valid(process_id: u32, timestamp: u128)
    ensures
        is_valid_event_name(resume_event_name_text(process_id, timestamp)),
{
    let pid = decimal(process_id as nat);
    let ts = decimal(timestamp as nat);
    let name = resume_event_name_text(process_id, timestamp);
    lemma_prefix_text();
    crate::encoding::lemma_decimal_digits(process_id as nat);
    crate::encoding::lemma_decimal_digits(timestamp as nat);
    assert(crate::encoding::pow10(10) == 10000000000) by {
        reveal_with_fuel(crate::encoding::pow10, 11);
    }
    assert(crate::encoding::pow10(39) == 1000000000000000000000000000000000000000) by {
        reveal_with_fuel(crate::encoding::pow10, 40);
    }
    crate::encoding::lemma_decimal_len_bound(process_id as nat, 10);
    crate::encoding::lemma_decimal_len_bound(timestamp as nat, 39);
    let p = RESUME_EVENT_PREFIX@;
    assert(name.take(30) =~= p);
    assert forall|i: int| 0 <= i < name.len() implies is_event_name_char(#[trigger] name[i]) by {
        if i < 30 {
            assert(name[i] == p[i]);
        } else if i < 30 + pid.len() {
            assert(name[i] == pid[i - 30]);
            assert(crate::text::is_ascii_digit(pid[i - 30]));
        } else if i == 30 + pid.len() {
        } else {
            assert(name[i] == ts[i - 31 - pid.len()]);
            assert(crate::text::is_ascii_digit(ts[i - 31 - pid.len()]));
        }
    }
    assert forall|i: int| 0 <= i < name.len() implies (#[trigger] name[i] as u32) <= 0x7F by {
        assert(is_event_name_char(name[i]));
    }
    crate::text::lemma_utf8_len_ascii(name);
}

/// The arguments Windows starts the registered debugger with: the
/// launcher path, the event flag and event from the command line, then
/// `-p <process id>` and `-tid <thread id>`.
pub open spec fn debugger_arguments(
    executable: Option<Seq<char>>,
    event_name: Seq<char>,
    process_id: u32,
    thread_id: u32,
) -> Seq<Option<Seq<char>>> {
    seq![
        executable,
        Some(RESUME_EVENT_FLAG@),
        Some(event_name),
        Some("-p"@),
        Some(decimal(process_id as nat)),
        Some(THREAD_ID_FLAG@),
        Some(decimal(thread_id as nat)),
    ]
}

/// The resumer reads back exactly the request that the registered command
/// line and Windows' own `-p`/`-tid` arguments carry: the thread to resume
/// and the launcher's event, for any non-zero thread id and any event name
/// the launcher owns (unless the launcher's own path were itself one of
/// the two flags).
pub proof fn lemma_resumer_reads_back_its_request(
    executable: Option<Seq<char>>,
    event_name: Seq<char>,
    process_id: u32,
    thread_id: u32,
)
    requires
        is_valid_event_name(event_name),
        thread_id != 0,
        executable != Some(RESUME_EVENT_FLAG@),
        executable != Some(THREAD_ID_FLAG@),
    ensures
        resume_request_verdict(debugger_arguments(executable, event_name, process_id, thread_id))
            == Some((thread_id, event_name)),
{
    let args = debugger_arguments(executable, event_name, process_id, thread_id);
    let event_flag = RESUME_EVENT_FLAG@;
    let tid_flag = THREAD_ID_FLAG@;
    reveal_strlit("--resume-event");
    reveal_strlit("-tid");
    reveal_strlit("-p");
    lemma_prefix_text();
    crate::encoding::lemma_decimal_digits(process_id as nat);
    crate::encoding::lemma_parse_decimal(thread_id);
    assert(event_name[0] == 'L') by {
        assert(event_name.take(30) == RESUME_EVENT_PREFIX@);
        assert(event_name.take(30)[0] == event_name[0]);
    }
    assert(event_flag[0] == '-' && event_flag.len() == 14);
    assert(tid_flag[0] == '-' && tid_flag[1] == 't' && tid_flag.len() == 4);
    assert(event_flag[1] == '-');
    assert(event_flag != tid_flag);
    assert(event_name != tid_flag);
    assert("-p"@ != tid_flag) by {
        assert("-p"@.len() == 2);
    }
    assert(decimal(process_id as nat) != tid_flag) by {
        assert(crate::text::is_ascii_digit(decimal(process_id as nat)[0]));
    }
    assert(is_first_flag(args, event_flag, 1));
    assert(is_first_flag(args, tid_flag, 5)) by {
        assert forall|j: int| 0 <= j < 5 implies #[trigger] args[j] != Some(tid_flag) by {
            if j == 0 {
            } else if j == 1 {
            } else if j == 2 {
            } else if j == 3 {
            } else {
            }
        }
    }
    let k1 = choose|k: int| is_first_flag(args, event_flag, k);
    lemma_first_flag_unique(args, event_flag, 1, k1);
    let k2 = choose|k: int| is_first_flag(args, tid_flag, k);
    lemma_first_flag_unique(args, tid_flag, 5, k2);
    assert(value_after(args, event_flag) == Some(event_name));
    assert(value_after(args, tid_flag) == Some(decimal(thread_id as nat)));
}

} // verus!

verus! {

/// The environment block for a valid zone holds one entry, `TZ=<zone>`:
/// its first NUL ends that entry and a second NUL ends the block.
pub proof fn lemma_environment_block_holds_only_tz(timezone: Seq<char>)
    requires
        timezone_verdict(timezone) is Ok,
    ensures
        encode_utf16(timezone_environment_text(timezone)) == encode_utf16("TZ="@ + timezone) + seq![
            0u16,
            0u16,
        ],
        crate::encoding::before_nul(encode_utf16(timezone_environment_text(timezone)))
            == encode_utf16("TZ="@ + timezone),
{
    let entry = "TZ="@ + timezone;
    reveal_strlit("TZ=");
    crate::timezone::lemma_validated_zone_is_inert(timezone);
    assert(timezone_environment_text(timezone) =~= entry + seq!['\0', '\0']);
    crate::encoding::lemma_encode_utf16_concat(entry, seq!['\0', '\0']);
    assert(encode_utf16(seq!['\0', '\0']) =~= seq![0u16, 0u16]) by {
        let z = seq!['\0', '\0'];
        let z1 = z.drop_first();
        assert(z1 =~= seq!['\0']);
        assert(z1.drop_first() =~= Seq::<char>::empty());
        assert(('\0' as u32) == 0);
        assert(crate::encoding::utf16_units('\0') =~= seq![0u16]);
        assert(encode_utf16(z1.drop_first()) =~= Seq::<u16>::empty());
        assert(encode_utf16(z1) =~= seq![0u16]);
        assert(encode_utf16(z) =~= seq![0u16] + seq![0u16]);
    }
    assert forall|i: int| 0 <= i < entry.len() implies (#[trigger] entry[i] as u32) != 0 by {
        if i >= 3 {
            assert(entry[i] == timezone[i - 3]);
            assert(timezone[i - 3] != '\0');
            crate::order::lemma_char_u32_injective(timezone[i - 3], '\0');
        }
    }
    crate::encoding::lemma_encode_utf16_nul_free(entry);
    crate::encoding::lemma_before_nul_append(encode_utf16(entry), seq![0u16, 0u16]);
}

} // verus!
