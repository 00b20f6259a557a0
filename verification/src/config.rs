//! The remembered settings: the zone that was saved last, and the checks
//! that the settings file passes before and after it is parsed.
use vstd::prelude::*;
use crate::timezone::{timezone_verdict, validate_timezone};

verus! {

/// The directory below `%LOCALAPPDATA%` that holds the settings.
pub const SETTINGS_DIRECTORY: &'static str = "ChatGPTTimeZoneLauncher";

/// The settings file's name.
pub const SETTINGS_FILE_NAME: &'static str = "settings.json";

/// The largest settings file that is read, in bytes.
pub const MAX_SETTINGS_BYTES: u64 = 16384;

/// The saved settings: a validated IANA zone name, and nothing else (in
/// particular no address of the machine).
#[derive(Clone, Debug, PartialEq, Eq)]
pub struct Settings {
    pub timezone: String,
}

/// What `Settings::new` answers: the settings for a valid zone, or the
/// validator's message.
pub open spec fn settings_verdict(timezone: Seq<char>) -> Result<Seq<char>, Seq<char>> {
    timezone_verdict(timezone)
}

/// The zone of a `Result` of settings, as text.
pub open spec fn settings_result_text(r: Result<Settings, String>) -> Result<Seq<char>, Seq<char>> {
    match r {
        Ok(settings) => Ok(settings.timezone@),
        Err(message) => Err(message@),
    }
}

impl Settings {
    /// Settings for `timezone`, which must be a valid IANA zone name.
    pub fn new(timezone: &str) -> (r: Result<Settings, String>)
        ensures
            settings_result_text(r) == settings_verdict(timezone@),
    {
        match validate_timezone(timezone) {
            Ok(zone) => Ok(Settings { timezone: zone }),
            Err(message) => Err(message),
        }
    }
}

pub open spec fn msg_settings_too_large() -> Seq<char> {
    "设置文件异常过大。"@
}

pub open spec fn msg_settings_malformed() -> Seq<char> {
    "设置文件格式无效。"@
}

/// A settings file of `len` bytes may be read.
pub fn check_settings_size(len: u64) -> (r: Result<(), String>)
    ensures
        r is Ok <==> len <= MAX_SETTINGS_BYTES,
        r matches Err(message) ==> message@ == msg_settings_too_large(),
{
    if len > MAX_SETTINGS_BYTES {
        return Err("设置文件异常过大。".to_owned());
    }
    Ok(())
}

/// The UTF-8 byte-order mark that Windows editors put in front of text.
pub open spec fn starts_with_bom(bytes: Seq<u8>) -> bool {
    bytes.len() >= 3 && bytes[0] == 0xEF && bytes[1] == 0xBB && bytes[2] == 0xBF
}

/// The JSON text of a settings file: refused when larger than the limit,
/// with a leading byte-order mark removed.
pub open spec fn settings_payload_verdict(bytes: Seq<u8>) -> Result<Seq<u8>, Seq<char>> {
    if bytes.len() > MAX_SETTINGS_BYTES {
        Err(msg_settings_too_large())
    } else if starts_with_bom(bytes) {
        Ok(bytes.subrange(3, bytes.len() as int))
    } else {
        Ok(bytes)
    }
}

/// The part of a settings file that is parsed as JSON.
pub fn settings_payload(bytes: &[u8]) -> (r: Result<&[u8], String>)
    ensures
        match settings_payload_verdict(bytes@) {
            Ok(payload) => r matches Ok(p) && p@ == payload,
            Err(message) => r matches Err(e) && e@ == message,
        },
{
    if bytes.len() as u64 > MAX_SETTINGS_BYTES {
        return Err("设置文件异常过大。".to_owned());
    }
    if bytes.len() >= 3 && bytes[0] == 0xEF && bytes[1] == 0xBB && bytes[2] == 0xBF {
        return Ok(&bytes[3..bytes.len()]);
    }
    Ok(bytes)
}

/// What `settings_from_fields` answers: the zone of the current format
/// when the file is in it, else that of the older format, validated; a
/// file in neither format is malformed.
pub open spec fn settings_fields_verdict(current: Option<Seq<char>>, legacy: Option<Seq<char>>) -> Result<
    Seq<char>,
    Seq<char>,
> {
    match current {
        Some(zone) => settings_verdict(zone),
        None => match legacy {
            Some(zone) => settings_verdict(zone),
            None => Err(msg_settings_malformed()),
        },
    }
}

/// Settings from a parsed settings file: `current` is the `timezone` of a
/// file in the current format (`None` when it is not in that format),
/// `legacy` the `TimeZoneName` of one in the older format. The older
/// format's other fields, such as its restart policy, are not kept.
pub fn settings_from_fields(current: Option<String>, legacy: Option<String>) -> (r: Result<
    Settings,
    String,
>)
    ensures
        settings_result_text(r) == settings_fields_verdict(
            crate::text::text_option(current),
            crate::text::text_option(legacy),
        ),
{
    match current {
        Some(zone) => Settings::new(zone.as_str()),
        None => match legacy {
            Some(zone) => Settings::new(zone.as_str()),
            None => Err("设置文件格式无效。".to_owned()),
        },
    }
}

} // verus!

verus! {

/// A file in the current format is read by its own `timezone` field alone,
/// whatever an older `TimeZoneName` field beside it says; the older field
/// counts only when the current one is absent. So a zone the launcher
/// saved, once valid, is read back as that very zone.
pub proof fn lemma_current_format_reads_back_its_zone(
    zone: Seq<char>,
    legacy: Option<Seq<char>>,
)
    ensures
        settings_fields_verdict(Some(zone), legacy) == timezone_verdict(zone),
        timezone_verdict(zone) is Ok ==> settings_fields_verdict(Some(zone), None) == Ok::<
            Seq<char>,
            Seq<char>,
        >(zone),
        settings_fields_verdict(None, Some(zone)) == timezone_verdict(zone),
        settings_fields_verdict(None, None) == Err::<Seq<char>, Seq<char>>(msg_settings_malformed()),
{
}

} // verus!

verus! {

/// A settings file within the size limit is parsed whole, or without its
/// three-byte byte-order mark when it starts with one; a larger file is
/// refused.
pub proof fn lemma_settings_payload(bytes: Seq<u8>)
    ensures
        bytes.len() > MAX_SETTINGS_BYTES ==> settings_payload_verdict(bytes) == Err::<
            Seq<u8>,
            Seq<char>,
        >(msg_settings_too_large()),
        bytes.len() <= MAX_SETTINGS_BYTES && !starts_with_bom(bytes) ==> settings_payload_verdict(
            bytes,
        ) == Ok::<Seq<u8>, Seq<char>>(bytes),
        bytes.len() <= MAX_SETTINGS_BYTES && starts_with_bom(bytes) ==> settings_payload_verdict(
            bytes,
        ) == Ok::<Seq<u8>, Seq<char>>(bytes.skip(3)),
        bytes.len() <= MAX_SETTINGS_BYTES && starts_with_bom(bytes) ==> seq![0xEFu8, 0xBBu8, 0xBFu8]
            + bytes.skip(3) == bytes,
{
    if bytes.len() <= MAX_SETTINGS_BYTES && starts_with_bom(bytes) {
        assert(bytes.subrange(3, bytes.len() as int) =~= bytes.skip(3));
        assert(seq![0xEFu8, 0xBBu8, 0xBFu8].add(bytes.skip(3)) =~= bytes);
    }
}

} // verus!
