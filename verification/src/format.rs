//! Rendering of an elapsed-seconds total as days, hours, minutes and
//! seconds, omitting every leading zero-valued unit: zero days is not shown,
//! but the seconds are always shown, even when zero.

use vstd::prelude::*;

use crate::decimal::{dec_seq, dec_string};

verus! {

/// The rendered form of an elapsed-seconds total: each unit as "<n><unit> ",
/// left out while zero, down to the seconds, which always close the string.
pub open spec fn formatted_time(t: u64) -> Seq<char> {
    let days = t as int / 86_400;
    let hours = t as int / 3_600 % 24;
    let minutes = t as int / 60 % 60;
    let seconds = t as int % 60;
    (if days > 0 {
        dec_seq(days) + "d "@
    } else {
        Seq::<char>::empty()
    }) + (if hours > 0 {
        dec_seq(hours) + "h "@
    } else {
        Seq::<char>::empty()
    }) + (if minutes > 0 {
        dec_seq(minutes) + "m "@
    } else {
        Seq::<char>::empty()
    }) + dec_seq(seconds) + "s"@
}

/// Renders a number of elapsed seconds as days, hours, minutes and seconds.
pub fn format_time(t: u64) -> (s: String)
    ensures
        s@ == formatted_time(t),
{
    let mut s = String::new();
    let days: u64 = t / 86_400;
    if days > 0 {
        let rendered = dec_string(days as u128);
        s.append(rendered.as_str());
        s.append("d ");
    }
    let hours: u64 = t / 3_600 % 24;
    if hours > 0 {
        let rendered = dec_string(hours as u128);
        s.append(rendered.as_str());
        s.append("h ");
    }
    let minutes: u64 = t / 60 % 60;
    if minutes > 0 {
        let rendered = dec_string(minutes as u128);
        s.append(rendered.as_str());
        s.append("m ");
    }
    let rendered = dec_string((t % 60) as u128);
    s.append(rendered.as_str());
    s.append("s");
    assert(s@ =~= formatted_time(t));
    s
}

} // verus!
