use vstd::prelude::*;
use crate::backend::strings::str_eq;
use crate::events::PopupType;
use crate::ipc::protocol::Response;

verus! {

/// What `str::to_lowercase` gives for a string.
pub uninterp spec fn lower_of(s: Seq<char>) -> Seq<char>;

/// Relies on `str::to_lowercase`: the lowercase form, a function of the
/// characters alone.
#[verifier::external_body]
fn lowercase(s: &str) -> (r: String)
    ensures
        r@ == lower_of(s@),
{
    s.to_lowercase()
}

/// The popup that an already lowercased name designates, with its short
/// aliases.
pub open spec fn popup_of_lowercase(s: Seq<char>) -> Option<PopupType> {
    if s == "bluetooth"@ || s == "bt"@ {
        Some(PopupType::Bluetooth)
    } else if s == "wifi"@ || s == "network"@ {
        Some(PopupType::Wifi)
    } else if s == "media-control"@ || s == "media"@ {
        Some(PopupType::MediaControl)
    } else if s == "power"@ {
        Some(PopupType::Power)
    } else {
        None
    }
}

/// The popup that a lowercase name designates, if any.
pub fn popup_from_lowercase(s: &str) -> (r: Option<PopupType>)
    ensures
        r == popup_of_lowercase(s@),
{
    if str_eq(s, "bluetooth") || str_eq(s, "bt") {
        Some(PopupType::Bluetooth)
    } else if str_eq(s, "wifi") || str_eq(s, "network") {
        Some(PopupType::Wifi)
    } else if str_eq(s, "media-control") || str_eq(s, "media") {
        Some(PopupType::MediaControl)
    } else if str_eq(s, "power") {
        Some(PopupType::Power)
    } else {
        None
    }
}

/// The message for a name that designates no popup.
pub open spec fn invalid_popup_text(s: Seq<char>) -> Seq<char> {
    "Invalid popup type: "@ + s + ". Valid types: bluetooth, wifi, media-control, power"@
}

/// The popup a name designates, whatever its case; an unknown name gives a
/// message naming it and the valid types.
pub fn parse_popup_type(s: &str) -> (r: Result<PopupType, String>)
    ensures
        match popup_of_lowercase(lower_of(s@)) {
            Some(p) => r == Ok::<PopupType, String>(p),
            None => r matches Err(m) && m@ == invalid_popup_text(s@),
        },
{
    let lower = lowercase(s);
    match popup_from_lowercase(lower.as_str()) {
        Some(p) => Ok(p),
        None => Err("Invalid popup type: ".to_owned().concat(s).concat(
            ". Valid types: bluetooth, wifi, media-control, power",
        )),
    }
}

/// Exit status of the control tool for a reply: 1 for an error, else 0.
pub fn exit_code(r: &Response) -> (c: i32)
    ensures
        c == (if *r is Error { 1i32 } else { 0i32 }),
{
    match r {
        Response::Error { .. } => 1,
        _ => 0,
    }
}

} // verus!
