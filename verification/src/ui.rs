//! Text shown on screen that does not depend on the terminal library.

use vstd::prelude::*;
use vstd::string::*;

verus! {

/// The loading indicator for a time in milliseconds: one, two or three dots, changing
/// every 250 ms.
pub open spec fn spinner_text(millis: u128) -> Seq<char> {
    let phase = (millis / 250) % 3;
    if phase == 0 {
        "."@
    } else if phase == 1 {
        ".."@
    } else {
        "..."@
    }
}

pub fn spinner_frame(millis: u128) -> (r: String)
    ensures
        r@ == spinner_text(millis),
{
    let duration = millis / 250;
    let phase = duration % 3;
    if phase == 0 {
        String::from_str(".")
    } else if phase == 1 {
        String::from_str("..")
    } else {
        String::from_str("...")
    }
}

/// Milliseconds since the Unix epoch, from `SystemTime::now().duration_since(UNIX_EPOCH)`
/// read with `Duration::as_millis`; nothing when the clock is set before the epoch (the
/// error of `duration_since`). The value depends on the clock, so nothing is stated of it.
#[verifier::external_body]
fn millis_since_epoch() -> Option<u128> {
    match std::time::SystemTime::now().duration_since(std::time::UNIX_EPOCH) {
        Ok(d) => Some(d.as_millis()),
        Err(_) => None,
    }
}

/// The loading indicator for the current time; nothing when the clock is set before the
/// Unix epoch.
pub fn spinner() -> (r: Option<String>)
    ensures
        r matches Some(s) ==> exists|millis: u128| s@ == spinner_text(millis),
{
    match millis_since_epoch() {
        Some(millis) => Some(spinner_frame(millis)),
        None => None,
    }
}

/// The title of a framed block `width` cells wide: shortened with an ellipsis when it does
/// not fit, between two border marks.
pub open spec fn fitted_title(title: Seq<char>, width: u16) -> Seq<char> {
    let shown = if (title.len() as u16) + 2 > width - 2 {
        title.take(width - 5) + "…"@
    } else {
        title
    };
    "╴"@ + shown + "╶"@
}

/// The block title for `title` in a frame `width` cells wide. The frame must be at least
/// two cells wide, five when the title has to be shortened.
pub fn fit_title(title: &str, width: u16) -> (r: String)
    requires
        width >= 2,
        (title@.len() as u16) + 2 <= u16::MAX,
        (title@.len() as u16) + 2 > width - 2 ==> width >= 5,
    ensures
        r@ == fitted_title(title@, width),
{
    let count = title.unicode_len() as u16;
    let mut r = String::from_str("╴");
    if count + 2 > width - 2 {
        let keep = (width - 5) as usize;
        assert(keep < title@.len()) by {
            assert((title@.len() as u16) <= title@.len());
        }
        r.append(title.substring_char(0, keep));
        r.append("…");
        proof {
            assert(title@.subrange(0, keep as int) =~= title@.take(width - 5));
        }
        r.append("╶");
        proof {
            let shown = title@.take(width - 5) + "…"@;
            assert(r@ =~= "╴"@ + shown + "╶"@);
        }
    } else {
        r.append(title);
        r.append("╶");
    }
    r
}

/// The lines of a message that the message box shows: its line count (as a `u16`), at
/// most four.
pub open spec fn shown_lines(count: usize) -> int {
    if (count as u16) < 4 {
        (count as u16) as int
    } else {
        4
    }
}

/// The height of a message box holding messages of these line counts: a border line,
/// then for each message its shown lines and one rule or border line.
pub open spec fn box_height(counts: Seq<usize>) -> int
    decreases counts.len(),
{
    if counts.len() == 0 {
        1
    } else {
        box_height(counts.drop_last()) + shown_lines(counts.last()) + 1
    }
}

proof fn lemma_box_height_grows(counts: Seq<usize>, i: int)
    requires
        0 <= i <= counts.len(),
    ensures
        box_height(counts.take(i)) <= box_height(counts),
    decreases counts.len() - i,
{
    if i < counts.len() {
        lemma_box_height_grows(counts, i + 1);
        assert(counts.take(i + 1).drop_last() =~= counts.take(i));
    } else {
        assert(counts.take(i) =~= counts);
    }
}

/// The height of the message box for messages of these line counts, cut to the height
/// of the area; nothing when the full height does not fit in a `u16`.
pub fn message_box_height(line_counts: &Vec<usize>, area_height: u16) -> (r: Option<u16>)
    ensures
        box_height(line_counts@) <= u16::MAX ==> r == Some(
            if box_height(line_counts@) < area_height {
                box_height(line_counts@) as u16
            } else {
                area_height
            },
        ),
        box_height(line_counts@) > u16::MAX ==> r is None,
{
    let mut height: u16 = 1;
    let mut i: usize = 0;
    while i < line_counts.len()
        invariant
            i <= line_counts.len(),
            height == box_height(line_counts@.take(i as int)),
        decreases line_counts.len() - i,
    {
        assert(line_counts@.take(i + 1).drop_last() =~= line_counts@.take(i as int));
        let c = line_counts[i] as u16;
        let shown: u16 = if c < 4 { c } else { 4 };
        if height as u32 + shown as u32 + 1 > 0xffff {
            proof {
                lemma_box_height_grows(line_counts@, i + 1);
            }
            return None;
        }
        height = height + shown + 1;
        i = i + 1;
    }
    assert(line_counts@.take(i as int) =~= line_counts@);
    if height < area_height {
        Some(height)
    } else {
        Some(area_height)
    }
}

} // verus!
