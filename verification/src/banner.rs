//! The one-row banner above a tiled workspace: its title, summary, the focused place
//! and how Tab moves between panes. When the full text does not fit, a tight form with
//! shorter summary and focus is used.
use vstd::prelude::*;
use crate::focus::VisibleWorkspace;
use crate::text::{concat, copy_str, spec_truncate_chars, truncate_chars};
use ratatui::text::Span;

verus! {

/// The terminal cells `s` takes when drawn (its Unicode display width).
pub uninterp spec fn spec_span_width(s: Seq<char>) -> usize;

/// `ratatui::text::Span::width` of an unstyled span of `s`: its Unicode display width,
/// named by `spec_span_width`.
#[verifier::external_body]
fn span_width(s: &str) -> (r: usize)
    ensures
        r == spec_span_width(s@),
{
    Span::raw(s).width()
}

/// The banner's four pieces, drawn in a row: the title and the focus are highlighted.
#[derive(Debug, Clone, PartialEq, Eq)]
pub struct BannerParts {
    pub title: String,
    pub summary: String,
    pub focus: String,
    pub tail: String,
}

/// Extra wheel hint of a Market workspace, by available width.
pub open spec fn spec_extra_hint(kind: VisibleWorkspace, max_width: u16) -> Seq<char> {
    match kind {
        VisibleWorkspace::Market => if max_width >= 140 {
            "  |  Wheel: pane under cursor"@
        } else if max_width >= 100 {
            "  |  Wheel→pane"@
        } else {
            " |^v"@
        },
        _ => Seq::empty(),
    }
}

/// `n - k`, or zero when `k` exceeds `n`.
pub open spec fn minus(n: int, k: int) -> int {
    if n >= k { n - k } else { 0 }
}

/// How many characters of the focus label fit: the width less 38 and the hint, kept
/// between 6 and 80.
pub open spec fn spec_focus_cap(max_width: u16, hint_len: int) -> int {
    let c = minus(minus(max_width as int, 38), hint_len);
    if c < 6 { 6 } else if c > 80 { 80 } else { c }
}

/// How many characters of the summary fit: the width less 26, the focus shown and the
/// hint, at least 10.
pub open spec fn spec_summary_cap(max_width: u16, focus_len: int, hint_len: int) -> int {
    let c = minus(minus(minus(max_width as int, 26), focus_len), hint_len);
    if c < 10 { 10 } else { c }
}

/// The full banner.
pub open spec fn spec_wide_banner(
    kind: VisibleWorkspace,
    title: Seq<char>,
    summary: Seq<char>,
    focus_label: Seq<char>,
    max_width: u16,
) -> (Seq<char>, Seq<char>, Seq<char>, Seq<char>) {
    let hint = spec_extra_hint(kind, max_width);
    let focus = spec_truncate_chars(focus_label, spec_focus_cap(max_width, hint.len() as int) as nat);
    let sum = spec_truncate_chars(summary, spec_summary_cap(max_width, focus.len() as int, hint.len() as int) as nat);
    (" "@ + title + " "@, sum + "  |  Focus: "@, focus, "  |  Tab/Shift-Tab cycles panes"@ + hint)
}

/// The tight banner.
pub open spec fn spec_tight_banner(title: Seq<char>, summary: Seq<char>, focus_label: Seq<char>) -> (
    Seq<char>,
    Seq<char>,
    Seq<char>,
    Seq<char>,
) {
    (" "@ + title + " "@, spec_truncate_chars(summary, 18) + " | "@, spec_truncate_chars(focus_label, 10), " | Tab panes"@)
}

/// The display width of the four pieces together, as a line of spans sums them.
pub open spec fn spec_parts_width(p: (Seq<char>, Seq<char>, Seq<char>, Seq<char>)) -> int {
    spec_span_width(p.0) + spec_span_width(p.1) + spec_span_width(p.2) + spec_span_width(p.3)
}

/// The banner's text as four pieces.
pub open spec fn parts_view(b: BannerParts) -> (Seq<char>, Seq<char>, Seq<char>, Seq<char>) {
    (b.title@, b.summary@, b.focus@, b.tail@)
}

/// The banner for a workspace of kind `kind` titled `title` with `summary`, while
/// `focus_label` has focus, in `max_width` columns: the full form when it fits or the
/// width is under 24 columns, else the tight form.
pub fn workspace_banner(kind: VisibleWorkspace, title: &str, summary: &str, focus_label: &str, max_width: u16) -> (r:
    BannerParts)
    ensures
        ({
            let wide = spec_wide_banner(kind, title@, summary@, focus_label@, max_width);
            parts_view(r) == if spec_parts_width(wide) <= max_width || max_width < 24 {
                wide
            } else {
                spec_tight_banner(title@, summary@, focus_label@)
            }
        }),
{
    let hint: &str = match kind {
        VisibleWorkspace::Market => if max_width >= 140 {
            "  |  Wheel: pane under cursor"
        } else if max_width >= 100 {
            "  |  Wheel→pane"
        } else {
            " |^v"
        },
        _ => "",
    };
    proof {
        reveal_strlit("  |  Wheel: pane under cursor");
        reveal_strlit("  |  Wheel→pane");
        reveal_strlit(" |^v");
        reveal_strlit("");
    }
    assert(hint@ == spec_extra_hint(kind, max_width));
    let hint_len = hint.unicode_len();
    let w = max_width as usize;
    let a = if w >= 38 { w - 38 } else { 0 };
    let b = if a >= hint_len { a - hint_len } else { 0 };
    let focus_cap = if b < 6 { 6 } else if b > 80 { 80 } else { b };
    let focus = truncate_chars(focus_label, focus_cap);
    let focus_len = focus.unicode_len();
    let c = if w >= 26 { w - 26 } else { 0 };
    let d = if c >= focus_len { c - focus_len } else { 0 };
    let e = if d >= hint_len { d - hint_len } else { 0 };
    let summary_cap = if e < 10 { 10 } else { e };
    let sum = truncate_chars(summary, summary_cap);
    let padded = concat(" ", title);
    let title_part = concat(padded.as_str(), " ");
    let summary_part = concat(sum.as_str(), "  |  Focus: ");
    let tail = concat("  |  Tab/Shift-Tab cycles panes", hint);
    let total = span_width(title_part.as_str()) as u128 + span_width(summary_part.as_str()) as u128
        + span_width(focus.as_str()) as u128 + span_width(tail.as_str()) as u128;
    if total <= max_width as u128 || max_width < 24 {
        return BannerParts { title: title_part, summary: summary_part, focus, tail };
    }
    let tight_summary = truncate_chars(summary, 18);
    let tight_focus = truncate_chars(focus_label, 10);
    BannerParts {
        title: title_part,
        summary: concat(tight_summary.as_str(), " | "),
        focus: tight_focus,
        tail: copy_str(" | Tab panes"),
    }
}

} // verus!
