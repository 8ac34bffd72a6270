//! Screenshots of single displays: which displays to capture, and how each
//! capture is labelled.
use vstd::prelude::*;
use crate::text::{concat2, concat3, decimal, u64_to_decimal};

verus! {

/// A captured display: a description, a resource URI naming the display,
/// and the PNG image in base64.
pub struct ScreenshotImage {
    pub description: String,
    pub uri: String,
    pub image_base64: String,
}

/// Why no screenshot could be taken.
pub enum ScreenshotError {
    /// No display was found.
    NoDisplays,
}

impl ScreenshotError {
    /// The message shown to the user.
    pub fn message(&self) -> (s: String)
        ensures
            s@ == "未发现可用显示器，无法截图"@,
    {
        String::from_str("未发现可用显示器，无法截图")
    }
}

/// The number of display numbers that are probed.
pub open spec fn probed_displays() -> nat {
    16
}

/// The display numbers, counted from 1, whose probe succeeded, among the
/// first `n` probes.
pub open spec fn found_displays(probes: Seq<bool>, n: int) -> Seq<u32>
    decreases n,
{
    if n <= 0 {
        Seq::empty()
    } else if probes[n - 1] {
        found_displays(probes, n - 1).push(n as u32)
    } else {
        found_displays(probes, n - 1)
    }
}

/// The display numbers (as `screencapture -D` takes them) whose probe
/// succeeded: `probes[i]` tells whether display `i + 1` could be captured,
/// and at most the first 16 are looked at.
pub fn list_displays(probes: &Vec<bool>) -> (ids: Vec<u32>)
    ensures
        ids@ == found_displays(
            probes@,
            if probes@.len() < probed_displays() {
                probes@.len() as int
            } else {
                probed_displays() as int
            },
        ),
{
    let n = if probes.len() < 16 {
        probes.len()
    } else {
        16
    };
    let mut ids: Vec<u32> = Vec::new();
    for i in 0..n
        invariant
            n <= probes@.len(),
            n <= 16,
            ids@ == found_displays(probes@, i as int),
    {
        if probes[i] {
            ids.push((i + 1) as u32);
        }
    }
    ids
}

/// The displays to capture: the one asked for, else every display found;
/// none at all is an error.
pub fn screenshot_targets(display_id: Option<u32>, available: Vec<u32>) -> (r: Result<
    Vec<u32>,
    ScreenshotError,
>)
    ensures
        match display_id {
            Some(id) => r matches Ok(t) && t@ == seq![id],
            None => if available@.len() == 0 {
                r matches Err(ScreenshotError::NoDisplays)
            } else {
                r matches Ok(t) && t@ == available@
            },
        },
{
    match display_id {
        Some(id) => {
            let mut t: Vec<u32> = Vec::new();
            t.push(id);
            assert(t@ =~= seq![id]);
            Ok(t)
        },
        None => if available.len() == 0 {
            Err(ScreenshotError::NoDisplays)
        } else {
            Ok(available)
        },
    }
}

/// The description of the capture of display `id`.
pub open spec fn capture_description(id: u32) -> Seq<char> {
    "显示器 "@ + decimal(id as nat) + " 的截图"@
}

/// The resource URI of the capture of display `id`.
pub open spec fn capture_uri(id: u32) -> Seq<char> {
    "screenshot://display/"@ + decimal(id as nat)
}

/// The labelled screenshots of the captures, in order: each pair holds the
/// display number and the PNG image in base64.
pub fn take_screenshot(captures: Vec<(u32, String)>) -> (r: Vec<ScreenshotImage>)
    ensures
        r@.len() == captures@.len(),
        forall|i: int|
            0 <= i < r@.len() ==> {
                let s = #[trigger] r@[i];
                &&& s.description@ == capture_description(captures@[i].0)
                &&& s.uri@ == capture_uri(captures@[i].0)
                &&& s.image_base64 == captures@[i].1
            },
{
    let mut r: Vec<ScreenshotImage> = Vec::new();
    let n = captures.len();
    let mut captures = captures;
    let ghost all = captures@;
    let mut i: usize = 0;
    while i < n
        invariant
            n == captures@.len(),
            all.len() == n,
            i <= n,
            forall|j: int| i <= j < n ==> captures@[j] == all[j],
            r@.len() == i,
            forall|j: int|
                0 <= j < i ==> {
                    let s = #[trigger] r@[j];
                    &&& s.description@ == capture_description(all[j].0)
                    &&& s.uri@ == capture_uri(all[j].0)
                    &&& s.image_base64 == all[j].1
                },
        decreases n - i,
    {
        let mut c: (u32, String) = (0, String::new());
        captures.set_and_swap(i, &mut c);
        assert(c == all[i as int]);
        let (id, image) = c;
        let d = u64_to_decimal(id as u64);
        let description = concat3("显示器 ", d.as_str(), " 的截图");
        let uri = concat2("screenshot://display/", d.as_str());
        r.push(ScreenshotImage { description, uri, image_base64: image });
        i = i + 1;
    }
    r
}

} // verus!
