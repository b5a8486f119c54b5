//! The fixed channel and slider name sets, and their validators.

use vstd::prelude::*;
use crate::text::str_eq;

verus! {

/// A name refers to one of the six audio channels the service knows.
pub open spec fn is_channel_name(s: Seq<char>) -> bool {
    ||| s == "master"@
    ||| s == "game"@
    ||| s == "chatRender"@
    ||| s == "media"@
    ||| s == "aux"@
    ||| s == "chatCapture"@
}

/// A name refers to one of the two streamer-mode output sliders.
pub open spec fn is_slider_name(s: Seq<char>) -> bool {
    ||| s == "streaming"@
    ||| s == "monitoring"@
}

/// Decide whether `name` is a valid audio channel name.
pub fn valid_channel_name(name: &str) -> (r: bool)
    ensures
        r == is_channel_name(name@),
{
    str_eq(name, "master") || str_eq(name, "game") || str_eq(name, "chatRender") || str_eq(
        name,
        "media",
    ) || str_eq(name, "aux") || str_eq(name, "chatCapture")
}

/// Decide whether `name` is a valid streamer slider name.
pub fn valid_slider_name(name: &str) -> (r: bool)
    ensures
        r == is_slider_name(name@),
{
    str_eq(name, "streaming") || str_eq(name, "monitoring")
}

/// The six valid audio channel names, in the service's order.
pub fn channel_names() -> (r: Vec<&'static str>)
    ensures
        r@.len() == 6,
        r@[0]@ == "master"@,
        r@[1]@ == "game"@,
        r@[2]@ == "chatRender"@,
        r@[3]@ == "media"@,
        r@[4]@ == "aux"@,
        r@[5]@ == "chatCapture"@,
        forall|i: int| 0 <= i < r@.len() ==> is_channel_name(#[trigger] r@[i]@),
{
    let mut v: Vec<&'static str> = Vec::new();
    v.push("master");
    v.push("game");
    v.push("chatRender");
    v.push("media");
    v.push("aux");
    v.push("chatCapture");
    v
}

/// The two valid streamer slider names.
pub fn streamer_slider_names() -> (r: Vec<&'static str>)
    ensures
        r@.len() == 2,
        r@[0]@ == "streaming"@,
        r@[1]@ == "monitoring"@,
        forall|i: int| 0 <= i < r@.len() ==> is_slider_name(#[trigger] r@[i]@),
{
    let mut v: Vec<&'static str> = Vec::new();
    v.push("streaming");
    v.push("monitoring");
    v
}

} // verus!
