//! Colours of the launcher window, the styling of its static controls, and
//! the reading of the zone field.
use vstd::prelude::*;
use crate::encoding::{decode_utf16_lossy, encode_utf16, encode_utf16_str, utf16_to_string_lossy};
use crate::ui_layout::{IDC_BADGE, IDC_FOOTNOTE, IDC_HELP, IDC_INFO, IDC_STATUS, IDC_SUBTITLE};

verus! {

/// A Win32 `COLORREF` (`0x00BBGGRR`) from its three channels.
pub fn rgb(red: u8, green: u8, blue: u8) -> (r: u32)
    ensures
        r == red + 256 * green + 65536 * blue,
{
    let value = red as u32 | ((green as u32) << 8) | ((blue as u32) << 16);
    assert(value == red + 256 * green + 65536 * blue) by (bit_vector)
        requires
            value == (red as u32 | ((green as u32) << 8) | ((blue as u32) << 16)),
    ;
    value
}

/// The colour in which the status line is written.
#[derive(Clone, Copy, Debug, PartialEq, Eq)]
pub enum StatusTone {
    Muted,
    Info,
    Success,
    Warning,
    Error,
}

pub open spec fn tone_rgb(tone: StatusTone) -> (u8, u8, u8) {
    match tone {
        StatusTone::Muted => (94, 105, 120),
        StatusTone::Info => (48, 94, 139),
        StatusTone::Success => (24, 120, 76),
        StatusTone::Warning => (162, 91, 0),
        StatusTone::Error => (185, 45, 45),
    }
}

pub open spec fn colorref(c: (u8, u8, u8)) -> u32 {
    (c.0 + 256 * c.1 + 65536 * c.2) as u32
}

/// The `COLORREF` of a status tone.
pub fn tone_color(tone: StatusTone) -> (r: u32)
    ensures
        r == colorref(tone_rgb(tone)),
{
    match tone {
        StatusTone::Muted => rgb(94, 105, 120),
        StatusTone::Info => rgb(48, 94, 139),
        StatusTone::Success => rgb(24, 120, 76),
        StatusTone::Warning => rgb(162, 91, 0),
        StatusTone::Error => rgb(185, 45, 45),
    }
}

pub open spec fn text_rgb() -> (u8, u8, u8) {
    (28, 38, 53)
}

pub open spec fn blue_rgb() -> (u8, u8, u8) {
    (31, 111, 235)
}

pub open spec fn blue_text_rgb() -> (u8, u8, u8) {
    (31, 78, 121)
}

pub open spec fn info_background_rgb() -> (u8, u8, u8) {
    (237, 245, 255)
}

pub open spec fn white_rgb() -> (u8, u8, u8) {
    (255, 255, 255)
}

/// The brush a static control is painted with.
#[derive(Clone, Copy, Debug, PartialEq, Eq)]
pub enum StaticBrush {
    /// The blue badge brush.
    Badge,
    /// The light-blue brush of the information panel.
    Info,
    /// The system window brush.
    Window,
}

/// How to paint one static control: its brush, the background colour of
/// its text (`None` for the window's own), and the text colour.
#[derive(Clone, Copy, Debug, PartialEq, Eq)]
pub struct StaticStyle {
    pub brush: StaticBrush,
    pub background: Option<u32>,
    pub text: u32,
}

/// The style of the static control with this id: the badge in white on
/// blue, the information panel in dark blue on light blue, the status line
/// in its current colour, the secondary texts muted and all others in the
/// text colour on the window brush.
pub open spec fn static_style_spec(control_id: i32, status_color: u32) -> StaticStyle {
    if control_id == IDC_BADGE {
        StaticStyle {
            brush: StaticBrush::Badge,
            background: Some(colorref(blue_rgb())),
            text: colorref(white_rgb()),
        }
    } else if control_id == IDC_INFO {
        StaticStyle {
            brush: StaticBrush::Info,
            background: Some(colorref(info_background_rgb())),
            text: colorref(blue_text_rgb()),
        }
    } else if control_id == IDC_STATUS {
        StaticStyle { brush: StaticBrush::Window, background: None, text: status_color }
    } else if control_id == IDC_SUBTITLE || control_id == IDC_HELP || control_id == IDC_FOOTNOTE {
        StaticStyle {
            brush: StaticBrush::Window,
            background: None,
            text: colorref(tone_rgb(StatusTone::Muted)),
        }
    } else {
        StaticStyle { brush: StaticBrush::Window, background: None, text: colorref(text_rgb()) }
    }
}

pub fn static_style(control_id: i32, status_color: u32) -> (r: StaticStyle)
    ensures
        r == static_style_spec(control_id, status_color),
{
    if control_id == IDC_BADGE {
        StaticStyle {
            brush: StaticBrush::Badge,
            background: Some(rgb(31, 111, 235)),
            text: rgb(255, 255, 255),
        }
    } else if control_id == IDC_INFO {
        StaticStyle {
            brush: StaticBrush::Info,
            background: Some(rgb(237, 245, 255)),
            text: rgb(31, 78, 121),
        }
    } else if control_id == IDC_STATUS {
        StaticStyle { brush: StaticBrush::Window, background: None, text: status_color }
    } else if control_id == IDC_SUBTITLE || control_id == IDC_HELP || control_id == IDC_FOOTNOTE {
        StaticStyle { brush: StaticBrush::Window, background: None, text: rgb(94, 105, 120) }
    } else {
        StaticStyle { brush: StaticBrush::Window, background: None, text: rgb(28, 38, 53) }
    }
}

pub open spec fn msg_enter_timezone() -> Seq<char> {
    "请输入或选择一个有效 IANA 时区。"@
}

pub open spec fn msg_cannot_read_timezone() -> Seq<char> {
    "无法读取时区输入。"@
}

/// The zone field may be read when it holds 1 to 64 UTF-16 units; the
/// result is the size of the buffer to read it into (one more, for the
/// NUL).
pub fn check_edit_text_length(length: i32) -> (r: Result<usize, String>)
    ensures
        r is Ok <==> 1 <= length <= 64,
        r matches Ok(size) ==> size == length + 1,
        r matches Err(message) ==> message@ == msg_enter_timezone(),
{
    if length < 1 || length > 64 {
        return Err("请输入或选择一个有效 IANA 时区。".to_owned());
    }
    Ok(length as usize + 1)
}

/// The text of the zone field from the `copied` units that were read into
/// `buffer`.
pub fn edit_text_from_buffer(buffer: &[u16], copied: i32) -> (r: Result<String, String>)
    requires
        copied <= buffer@.len(),
    ensures
        r is Ok <==> copied > 0,
        r matches Ok(text) ==> text@ == decode_utf16_lossy(buffer@.take(copied as int)),
        r matches Err(message) ==> message@ == msg_cannot_read_timezone(),
{
    if copied <= 0 {
        return Err("无法读取时区输入。".to_owned());
    }
    let count = copied as usize;
    let mut units: Vec<u16> = Vec::new();
    let mut i: usize = 0;
    while i < count
        invariant
            0 <= i <= count,
            count <= buffer@.len(),
            units@ == buffer@.take(i as int),
        decreases count - i,
    {
        units.push(buffer[i]);
        assert(buffer@.take(i + 1) =~= buffer@.take(i as int).push(buffer@[i as int]));
        i += 1;
    }
    Ok(utf16_to_string_lossy(units.as_slice()))
}

/// The edit-field selection that puts the caret after the query: the
/// caret position (the query's UTF-16 length, at most 64) as both the
/// start and the end of the selection.
pub fn edit_selection(query: &str) -> (r: isize)
    ensures
        ({
            let units = encode_utf16(query@).len();
            let cursor = if units < 64 {
                units
            } else {
                64
            };
            r == cursor * 65536 + cursor
        }),
{
    let units = encode_utf16_str(query);
    let cursor: isize = if units.len() < 64 {
        units.len() as isize
    } else {
        64
    };
    let selection = (cursor << 16) | cursor;
    assert(selection == cursor * 65536 + cursor) by (bit_vector)
        requires
            0 <= cursor <= 64,
            selection == (cursor << 16) | cursor,
    ;
    selection
}

} // verus!
