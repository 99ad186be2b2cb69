//! The window-size label: its wording, and how resize events change it.

use vstd::prelude::*;
use vstd::string::*;

verus! {

/// A window's extent, each side held as the text the host displays for it.
///
/// The host measures windows in fractional logical pixels; how such a number
/// is printed is the host's business. The label only places the two printed
/// numbers into its sentence.
#[derive(Clone, Debug, PartialEq, Eq)]
pub struct WindowSize {
    /// The printed width.
    pub width: String,
    /// The printed height.
    pub height: String,
}

/// The mathematical content of a [`WindowSize`].
pub struct WindowSizeView {
    pub width: Seq<char>,
    pub height: Seq<char>,
}

impl View for WindowSize {
    type V = WindowSizeView;

    open spec fn view(&self) -> WindowSizeView {
        WindowSizeView { width: self.width@, height: self.height@ }
    }
}

/// The views of a list of sizes, in order.
pub open spec fn size_views(sizes: Seq<WindowSize>) -> Seq<WindowSizeView> {
    sizes.map_values(|size: WindowSize| size@)
}

/// The words that open the label.
pub open spec fn status_prefix() -> Seq<char> {
    "Window size: "@
}

/// The sign between the two numbers.
pub open spec fn status_separator() -> Seq<char> {
    "x"@
}

/// The label for a window of the given size: the prefix, the width, the
/// separator, the height.
pub open spec fn window_status(size: WindowSizeView) -> Seq<char> {
    status_prefix() + size.width + status_separator() + size.height
}

/// The label after a frame in which the given resizes arrived, oldest first:
/// the last one decides, and without any the label stays.
pub open spec fn status_after_resizes(status: Seq<char>, resizes: Seq<WindowSizeView>) -> Seq<
    char,
> {
    if resizes.len() == 0 {
        status
    } else {
        window_status(resizes.last())
    }
}

impl WindowSize {
    /// Pairs two printed numbers.
    pub fn new(width: String, height: String) -> (size: WindowSize)
        ensures
            size@ == (WindowSizeView { width: width@, height: height@ }),
    {
        WindowSize { width, height }
    }
}

/// Writes the label for a window of the given size.
pub fn window_status_text(size: &WindowSize) -> (text: String)
    ensures
        text@ == window_status(size@),
{
    let mut text = String::from_str("Window size: ");
    text.append(size.width.as_str());
    text.append("x");
    text.append(size.height.as_str());
    text
}

/// Brings the label up to date with the resizes that arrived in one frame,
/// oldest first. The label takes the size of the last resize; a frame without
/// resizes leaves it as it was.
pub fn update_window_status(status: &mut String, resizes: &Vec<WindowSize>)
    ensures
        final(status)@ == status_after_resizes(old(status)@, size_views(resizes@)),
{
    let n: usize = resizes.len();
    if n > 0 {
        *status = window_status_text(&resizes[n - 1]);
    }
}

/// The label holds both numbers whole and in order: it is as long as its
/// fixed words and the two numbers together, the width starts right after
/// the opening words, and the height ends the label.
pub proof fn lemma_status_holds_both_numbers(size: WindowSizeView)
    ensures
        window_status(size).len() == 14 + size.width.len() + size.height.len(),
        window_status(size).subrange(13, 13 + size.width.len() as int) == size.width,
        window_status(size)[13 + size.width.len() as int] == 'x',
        window_status(size).subrange(
            14 + size.width.len() as int,
            window_status(size).len() as int,
        ) == size.height,
{
    reveal_strlit("Window size: ");
    reveal_strlit("x");
    let label = window_status(size);
    let w = size.width.len() as int;
    assert(label.subrange(13, 13 + w) =~= size.width);
    assert(label.subrange(14 + w, label.len() as int) =~= size.height);
}

/// Only the last resize of a frame counts: whatever came before it, and
/// whatever the label said, the label ends as that resize's.
pub proof fn lemma_last_resize_decides(
    status: Seq<char>,
    earlier: Seq<WindowSizeView>,
    last: WindowSizeView,
)
    ensures
        status_after_resizes(status, earlier.push(last)) == window_status(last),
{
}

/// Handling a frame's resizes in two batches gives the same label as handling
/// them in one.
pub proof fn lemma_resizes_compose(
    status: Seq<char>,
    first: Seq<WindowSizeView>,
    second: Seq<WindowSizeView>,
)
    ensures
        status_after_resizes(status_after_resizes(status, first), second) == status_after_resizes(
            status,
            first + second,
        ),
{
    if second.len() > 0 {
        assert((first + second).last() == second.last());
    } else {
        assert(first + second =~= first);
    }
}

} // verus!
