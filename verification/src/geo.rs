//! Turning the reply of the IP location service into a zone name. Only
//! the `timezone` and `error` fields of the reply are read; nothing else
//! of it, in particular the caller's address, is kept.
use vstd::prelude::*;
use crate::encoding::{decimal, push_decimal};
use crate::text::push_str;
use crate::timezone::{timezone_verdict, validate_timezone};

verus! {

/// The one endpoint the location lookup asks, over HTTPS.
pub const IP_SERVICE_URL: &'static str = "https://ipapi.co/json/";

/// The host of `IP_SERVICE_URL`.
pub const IP_SERVICE_HOST: &'static str = "ipapi.co";

/// The path of `IP_SERVICE_URL`.
pub const IP_SERVICE_PATH: &'static str = "/json/";

/// WinHTTP's `ERROR_WINHTTP_TIMEOUT`.
pub const WINHTTP_ERROR_TIMEOUT: u32 = 12002;

/// WinHTTP's `ERROR_WINHTTP_NAME_NOT_RESOLVED`.
pub const WINHTTP_ERROR_NAME_NOT_RESOLVED: u32 = 12007;

/// WinHTTP's `ERROR_WINHTTP_CANNOT_CONNECT`.
pub const WINHTTP_ERROR_CANNOT_CONNECT: u32 = 12029;

/// The largest reply that is parsed, in bytes.
pub const MAX_RESPONSE_BYTES: usize = 65536;

/// The two fields of the service's JSON reply that the launcher reads.
#[derive(Clone, Debug, PartialEq, Eq)]
pub struct IpApiReply {
    pub timezone: Option<String>,
    pub error: bool,
}

pub open spec fn msg_reply_too_large() -> Seq<char> {
    "定位服务返回的数据异常过大。"@
}

pub open spec fn msg_reply_unparsable() -> Seq<char> {
    "定位服务返回了无法解析的数据。"@
}

pub open spec fn msg_service_unavailable() -> Seq<char> {
    "定位服务暂时不可用，请稍后重试。"@
}

pub open spec fn msg_no_timezone() -> Seq<char> {
    "定位服务没有返回时区。"@
}

pub open spec fn msg_invalid_reply_timezone() -> Seq<char> {
    "定位服务返回了无效时区。"@
}

/// A reply body of this size may be parsed.
pub fn check_response_body(body: &[u8]) -> (r: Result<(), String>)
    ensures
        r is Ok <==> body@.len() <= MAX_RESPONSE_BYTES,
        r matches Err(message) ==> message@ == msg_reply_too_large(),
{
    if body.len() > MAX_RESPONSE_BYTES {
        return Err("定位服务返回的数据异常过大。".to_owned());
    }
    Ok(())
}

/// What `timezone_from_reply` answers for a reply (`None` when it was not
/// JSON of the expected shape).
pub open spec fn reply_verdict(reply: Option<(Option<Seq<char>>, bool)>) -> Result<Seq<char>, Seq<char>> {
    match reply {
        None => Err(msg_reply_unparsable()),
        Some((timezone, error)) => if error {
            Err(msg_service_unavailable())
        } else {
            match timezone {
                None => Err(msg_no_timezone()),
                Some(zone) => match timezone_verdict(zone) {
                    Ok(name) => Ok(name),
                    Err(_) => Err(msg_invalid_reply_timezone()),
                },
            }
        },
    }
}

/// The validated zone of a parsed reply, or the message for the way it
/// failed: a reply that could not be parsed, the service reporting an
/// error, a missing zone, or a zone that is not a valid IANA name.
pub fn timezone_from_reply(reply: Option<IpApiReply>) -> (r: Result<String, String>)
    ensures
        crate::text::text_result(r) == reply_verdict(
            match reply {
                Some(reply) => Some((crate::text::text_option(reply.timezone), reply.error)),
                None => None,
            },
        ),
{
    let reply = match reply {
        Some(reply) => reply,
        None => return Err("定位服务返回了无法解析的数据。".to_owned()),
    };
    if reply.error {
        return Err("定位服务暂时不可用，请稍后重试。".to_owned());
    }
    let zone = match reply.timezone {
        Some(zone) => zone,
        None => return Err("定位服务没有返回时区。".to_owned()),
    };
    match validate_timezone(zone.as_str()) {
        Ok(name) => Ok(name),
        Err(_) => Err("定位服务返回了无效时区。".to_owned()),
    }
}

// ---------------------------------------------------------------------------
// Transport failures
// ---------------------------------------------------------------------------

/// The message for a reply whose HTTP status is not 200.
pub open spec fn http_status_message(status: u32) -> Seq<char> {
    "定位服务返回了 HTTP "@ + decimal(status as nat) + " 错误，请稍后重试。"@
}

/// Only a reply with status 200 is parsed; any other status is an error
/// that names it.
pub fn check_http_status(status: u32) -> (r: Result<(), String>)
    ensures
        r is Ok <==> status == 200,
        r matches Err(message) ==> message@ == http_status_message(status),
{
    if status == 200 {
        return Ok(());
    }
    let mut message = "定位服务返回了 HTTP ".to_owned();
    push_decimal(&mut message, status as u128);
    push_str(&mut message, " 错误，请稍后重试。");
    Err(message)
}

/// The message for a failed WinHTTP call during `stage` (such as "连接",
/// "发送" or "接收"): a timeout says so and suggests retrying, an
/// unreachable or unresolvable host asks to check the network, and any
/// other error names its code.
pub open spec fn network_error_text(code: u32, stage: Seq<char>) -> Seq<char> {
    if code == WINHTTP_ERROR_TIMEOUT {
        "定位服务"@ + stage + "超时，请稍后重试。"@
    } else if code == WINHTTP_ERROR_CANNOT_CONNECT || code == WINHTTP_ERROR_NAME_NOT_RESOLVED {
        "无法"@ + stage + "定位服务，请检查网络连接。"@
    } else {
        "定位服务"@ + stage + "失败（错误 "@ + decimal(code as nat) + "）。"@
    }
}

pub fn network_error_message(code: u32, stage: &str) -> (r: String)
    ensures
        r@ == network_error_text(code, stage@),
{
    if code == WINHTTP_ERROR_TIMEOUT {
        let mut message = "定位服务".to_owned();
        push_str(&mut message, stage);
        push_str(&mut message, "超时，请稍后重试。");
        message
    } else if code == WINHTTP_ERROR_CANNOT_CONNECT || code == WINHTTP_ERROR_NAME_NOT_RESOLVED {
        let mut message = "无法".to_owned();
        push_str(&mut message, stage);
        push_str(&mut message, "定位服务，请检查网络连接。");
        message
    } else {
        let mut message = "定位服务".to_owned();
        push_str(&mut message, stage);
        push_str(&mut message, "失败（错误 ");
        push_decimal(&mut message, code as u128);
        push_str(&mut message, "）。");
        message
    }
}

} // verus!

verus! {

/// The documented endpoint is exactly the one requested: HTTPS to
/// `IP_SERVICE_HOST` for `IP_SERVICE_PATH`.
pub proof fn lemma_service_url_is_host_and_path()
    ensures
        IP_SERVICE_URL@ == "https://"@ + IP_SERVICE_HOST@ + IP_SERVICE_PATH@,
{
    reveal_strlit("https://ipapi.co/json/");
    reveal_strlit("https://");
    reveal_strlit("ipapi.co");
    reveal_strlit("/json/");
    assert(IP_SERVICE_URL@ =~= "https://"@ + IP_SERVICE_HOST@ + IP_SERVICE_PATH@);
}

} // verus!

verus! {

/// A reply that reports an error is refused whatever zone it names; a
/// reply without the error flag gives its zone exactly when that zone is a
/// valid IANA name, and otherwise says which of the two it lacked.
pub proof fn lemma_reply_gives_its_valid_zone(zone: Seq<char>, error: bool)
    ensures
        error ==> reply_verdict(Some((Some(zone), error))) == Err::<Seq<char>, Seq<char>>(
            msg_service_unavailable(),
        ),
        error ==> reply_verdict(Some((None, error))) == Err::<Seq<char>, Seq<char>>(
            msg_service_unavailable(),
        ),
        !error && timezone_verdict(zone) is Ok ==> reply_verdict(Some((Some(zone), error))) == Ok::<
            Seq<char>,
            Seq<char>,
        >(zone),
        !error && timezone_verdict(zone) is Err ==> reply_verdict(Some((Some(zone), error)))
            == Err::<Seq<char>, Seq<char>>(msg_invalid_reply_timezone()),
        !error ==> reply_verdict(Some((None, error))) == Err::<Seq<char>, Seq<char>>(
            msg_no_timezone(),
        ),
        reply_verdict(None) == Err::<Seq<char>, Seq<char>>(msg_reply_unparsable()),
{
    crate::timezone::lemma_validation_is_idempotent(zone);
}

} // verus!
