//! Control identifiers of the launcher window and the initial selection of
//! the zone list.
use vstd::prelude::*;
use crate::order::string_views;

verus! {

pub const IDC_TIMEZONE: i32 = 101;
pub const IDC_LOCATE: i32 = 102;
pub const IDC_SAVE: i32 = 103;
pub const IDC_SAVE_LAUNCH: i32 = 104;
pub const IDC_BADGE: i32 = 201;
pub const IDC_TITLE: i32 = 202;
pub const IDC_SUBTITLE: i32 = 203;
pub const IDC_INFO: i32 = 204;
pub const IDC_HELP: i32 = 205;
pub const IDC_CLIENT_PATH: i32 = 206;
pub const IDC_STATUS: i32 = 207;
pub const IDC_FOOTNOTE: i32 = 208;

/// The list position to select when the zone list is filled: that of
/// `selected`, or the first entry.
pub fn selected_zone_index(zones: &[String], selected: &str) -> (r: usize)
    ensures
        ({
            let views = string_views(zones@);
            &&& (exists|i: int| 0 <= i < views.len() && views[i] == selected@) ==> {
                &&& r < views.len()
                &&& views[r as int] == selected@
                &&& forall|j: int| 0 <= j < r ==> views[j] != selected@
            }
            &&& !(exists|i: int| 0 <= i < views.len() && views[i] == selected@) ==> r == 0
        }),
{
    let wanted = selected.to_owned();
    let mut i: usize = 0;
    while i < zones.len()
        invariant
            0 <= i <= zones.len(),
            wanted@ == selected@,
            forall|j: int| 0 <= j < i ==> zones@[j]@ != selected@,
        decreases zones.len() - i,
    {
        if zones[i] == wanted {
            return i;
        }
        i += 1;
    }
    0
}

} // verus!
