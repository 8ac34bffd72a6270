//! Mouse decisions: how far the wheel turns for a scroll.
use vstd::prelude::*;
use crate::text::concat3;

verus! {

/// The wheel amount of a scroll: positive steps up, negative steps down;
/// any other direction is refused.
pub open spec fn scroll_length(direction: Seq<char>, clicks: i32) -> Option<int> {
    let a = if clicks < 0 {
        -clicks
    } else {
        clicks as int
    };
    if direction == "up"@ {
        Some(a)
    } else if direction == "down"@ {
        Some(-a)
    } else {
        None
    }
}

/// The wheel amount of a scroll, or the message refusing the direction.
pub fn scroll_amount(direction: &str, clicks: i32) -> (r: Result<i32, String>)
    requires
        clicks != i32::MIN,
    ensures
        match scroll_length(direction@, clicks) {
            Some(a) => r matches Ok(v) && v == a,
            None => r matches Err(m) && m@ == "不支持的滚动方向: "@ + direction@ + "，仅支持 up/down"@,
        },
{
    let a: i32 = if clicks < 0 {
        -clicks
    } else {
        clicks
    };
    if crate::json::str_eq(direction, "up") {
        Ok(a)
    } else if crate::json::str_eq(direction, "down") {
        Ok(-a)
    } else {
        Err(concat3("不支持的滚动方向: ", direction, "，仅支持 up/down"))
    }
}

} // verus!
