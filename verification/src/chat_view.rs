//! The chat screen's layout: how tall each message bubble is, where the
//! history scrolls to, which bubbles show in the viewport, and the input
//! box with its suggestion list and status line.
use vstd::prelude::*;
use crate::router::ModelProfile;
use crate::text::{decimal_text, str_starts_with, trim_str, trim_text};
use crate::tui::{strings_view, wrap_text, wrapped};

verus! {

// ----- case-insensitive names -----
/// Two characters equal once ASCII letters are folded to lower case.
pub open spec fn ascii_fold_eq(a: char, b: char) -> bool {
    ||| a == b
    ||| ('A' <= a <= 'Z' && a as u32 + 32 == b as u32)
    ||| ('A' <= b <= 'Z' && b as u32 + 32 == a as u32)
}

/// Two texts equal up to ASCII case, as `str::eq_ignore_ascii_case`.
pub open spec fn same_ignoring_ascii_case(a: Seq<char>, b: Seq<char>) -> bool {
    a.len() == b.len() && forall|i: int| 0 <= i < a.len() ==> ascii_fold_eq(#[trigger] a[i], b[i])
}

fn char_fold_eq(a: char, b: char) -> (r: bool)
    ensures
        r == ascii_fold_eq(a, b),
{
    let x = a as u32;
    let y = b as u32;
    x == y || ('A' <= a && a <= 'Z' && x + 32 == y) || ('A' <= b && b <= 'Z' && y + 32 == x)
}

/// Are the two texts equal up to ASCII case?
pub fn eq_ignore_ascii_case(a: &str, b: &str) -> (r: bool)
    ensures
        r == same_ignoring_ascii_case(a@, b@),
{
    let n = a.unicode_len();
    if n != b.unicode_len() {
        return false;
    }
    let mut i: usize = 0;
    while i < n
        invariant
            n == a@.len(),
            n == b@.len(),
            i <= n,
            forall|j: int| 0 <= j < i ==> ascii_fold_eq(#[trigger] a@[j], b@[j]),
        decreases n - i,
    {
        if !char_fold_eq(a.get_char(i), b.get_char(i)) {
            return false;
        }
        i = i + 1;
    }
    true
}

// ----- the spinner -----
/// The frames of the busy spinner.
pub open spec fn spinner_frames() -> Seq<Seq<char>> {
    seq!["⠋"@, "⠙"@, "⠹"@, "⠸"@, "⠼"@, "⠴"@, "⠦"@, "⠧"@, "⠇"@, "⠏"@]
}

/// The spinner frame shown at a tick: the frames in turn, round and round.
pub fn spinner_frame(tick: usize) -> (f: &'static str)
    ensures
        f@ == spinner_frames()[(tick % 10) as int],
{
    let k = tick % 10;
    if k == 0 {
        "⠋"
    } else if k == 1 {
        "⠙"
    } else if k == 2 {
        "⠹"
    } else if k == 3 {
        "⠸"
    } else if k == 4 {
        "⠼"
    } else if k == 5 {
        "⠴"
    } else if k == 6 {
        "⠦"
    } else if k == 7 {
        "⠧"
    } else if k == 8 {
        "⠇"
    } else {
        "⠏"
    }
}

// ----- list windows -----
/// How many suggestions the input box lists at once.
pub const MAX_VISIBLE_SUGGESTIONS: usize = 10;

/// The first row of a window of `visible` rows that keeps row `selected`
/// in sight: the top until the selection passes the window's end.
pub open spec fn follow_start(selected: int, visible: int) -> int {
    if selected >= visible {
        selected - visible + 1
    } else {
        0
    }
}

/// The rows `start..end` of the model suggestions shown: at most ten,
/// following the selection, and never a short window when enough rows
/// stand above it.
pub open spec fn suggestion_window_spec(total: int, selected: int) -> (int, int) {
    let s0 = follow_start(selected, 10);
    let s = if total >= 10 {
        if s0 <= total - 10 {
            s0
        } else {
            total - 10
        }
    } else {
        0
    };
    (s, if s + 10 <= total {
        s + 10
    } else {
        total
    })
}

/// The rows of the model suggestions to list, as a start and end index.
pub fn suggestion_window(total: usize, selected: usize) -> (w: (usize, usize))
    ensures
        w.0 as int == suggestion_window_spec(total as int, selected as int).0,
        w.1 as int == suggestion_window_spec(total as int, selected as int).1,
        w.0 <= w.1 <= total,
        w.1 - w.0 <= MAX_VISIBLE_SUGGESTIONS,
        selected < total ==> w.0 <= selected < w.1,
{
    let mut start: usize = if selected >= MAX_VISIBLE_SUGGESTIONS {
        selected - MAX_VISIBLE_SUGGESTIONS + 1
    } else {
        0
    };
    let cap = total.saturating_sub(MAX_VISIBLE_SUGGESTIONS);
    if cap < start {
        start = cap;
    }
    let end = if start + MAX_VISIBLE_SUGGESTIONS <= total {
        start + MAX_VISIBLE_SUGGESTIONS
    } else {
        total
    };
    (start, end)
}

/// The rows `start..end` of a picker list of `visible` rows that keep the
/// selection in sight; the end is cut at the list's length.
pub fn picker_window(selected: usize, visible: usize, total: usize) -> (w: (usize, usize))
    requires
        selected < usize::MAX,
    ensures
        w.0 as int == follow_start(selected as int, visible as int),
        w.1 as int == if w.0 + visible <= total {
            w.0 + visible
        } else {
            total as int
        },
        0 < visible && selected < total ==> w.0 <= selected < w.1,
{
    let start: usize = if selected >= visible {
        selected - visible + 1
    } else {
        0
    };
    let end = if start + visible <= total {
        start + visible
    } else {
        total
    };
    (start, end)
}

// ----- scrolling -----
/// The scroll position of the chat history: the offset kept from the last
/// frame, clamped to how far the history can scroll, and the first row
/// shown (the bottom when following it or when nothing scrolls).
pub open spec fn chat_scroll_spec(total: int, viewport: int, stored: int, at_bottom: bool) -> (
    int,
    int,
) {
    let max_scroll = if total > viewport {
        total - viewport
    } else {
        0
    };
    let clamped = if stored < max_scroll {
        stored
    } else {
        max_scroll
    };
    (clamped, if at_bottom || max_scroll == 0 {
        max_scroll
    } else {
        max_scroll - clamped
    })
}

/// Clamps the kept scroll offset and gives the first history row to show.
pub fn chat_scroll(total_height: usize, viewport_height: usize, stored_offset: usize, at_bottom: bool) -> (r: (
    usize,
    usize,
))
    ensures
        r.0 as int == chat_scroll_spec(
            total_height as int,
            viewport_height as int,
            stored_offset as int,
            at_bottom,
        ).0,
        r.1 as int == chat_scroll_spec(
            total_height as int,
            viewport_height as int,
            stored_offset as int,
            at_bottom,
        ).1,
        r.1 <= total_height,
{
    let max_scroll = total_height.saturating_sub(viewport_height);
    let clamped = if stored_offset < max_scroll {
        stored_offset
    } else {
        max_scroll
    };
    let first = if at_bottom || max_scroll == 0 {
        max_scroll
    } else {
        max_scroll - clamped
    };
    (clamped, first)
}

/// Where a bubble of the history falls against the viewport.
#[derive(PartialEq, Eq, Structural, Debug, Clone, Copy)]
pub enum BubblePlacement {
    /// Wholly above the viewport: skipped.
    Above,
    /// Starts below the viewport: this and every later bubble are skipped.
    Below,
    /// Touches the viewport in no row: skipped.
    Hidden,
    /// Shown at `offset` rows into the viewport, `height` rows tall, with
    /// its first `skip` rows scrolled away.
    Shown { offset: u16, height: u16, skip: u16 },
}

/// The placement of a bubble that spans rows `start..start + height` of
/// the history, when the viewport shows `viewport` rows from row `scroll`.
pub open spec fn place_bubble_spec(start: int, height: int, scroll: int, viewport: u16) -> BubblePlacement {
    let end = start + height;
    if end <= scroll {
        BubblePlacement::Above
    } else {
        let rel = (if start > scroll {
            start - scroll
        } else {
            0
        }) as u16;
        if rel >= viewport {
            BubblePlacement::Below
        } else {
            let bottom = if end - scroll <= viewport {
                end - scroll
            } else {
                viewport as int
            };
            let h = bottom - rel;
            if h == 0 {
                BubblePlacement::Hidden
            } else {
                BubblePlacement::Shown {
                    offset: rel,
                    height: h as u16,
                    skip: (if scroll > start {
                        scroll - start
                    } else {
                        0
                    }) as u16,
                }
            }
        }
    }
}

/// Places one bubble of the history against the viewport.
pub fn place_bubble(item_start: usize, item_height: usize, scroll: usize, viewport: u16) -> (p:
    BubblePlacement)
    requires
        item_start + item_height <= usize::MAX,
    ensures
        p == place_bubble_spec(item_start as int, item_height as int, scroll as int, viewport),
        p matches BubblePlacement::Shown { offset, height, .. } ==> 0 < height && offset + height <= viewport,
{
    let item_end = item_start + item_height;
    if item_end <= scroll {
        return BubblePlacement::Above;
    }
    let d = item_start.saturating_sub(scroll);
    let rel = d as u16;
    if rel >= viewport {
        return BubblePlacement::Below;
    }
    assert(rel as int <= d) by (bit_vector)
        requires
            rel == d as u16,
    ;
    let span = item_end - scroll;
    let bottom: usize = if span <= viewport as usize {
        span
    } else {
        viewport as usize
    };
    let h = bottom - rel as usize;
    if h == 0 {
        return BubblePlacement::Hidden;
    }
    let skip = scroll.saturating_sub(item_start);
    BubblePlacement::Shown { offset: rel, height: h as u16, skip: skip as u16 }
}


// ----- bubble heights -----
/// A sender whose messages show as a user bubble (the user, or the system).
pub open spec fn is_user_like(sender: Seq<char>) -> bool {
    same_ignoring_ascii_case(sender, "user"@) || same_ignoring_ascii_case(sender, "system"@)
}

/// The rows a message takes in the history: a folded tool call takes one
/// row; any other message its wrapped lines (at least one) and two rows
/// of chrome, wrapped to the user width for user bubbles and to the
/// assistant width otherwise.
pub open spec fn bubble_rows(sender: Seq<char>, msg: Seq<char>, show_internal: bool, user_w: nat, asst_w: nat) -> int {
    if same_ignoring_ascii_case(sender, "tool"@) && !show_internal {
        1
    } else {
        let w = if is_user_like(sender) {
            user_w
        } else {
            asst_w
        };
        let n: int = wrapped(msg, w).len() as int;
        (if n > 1 {
            n
        } else {
            1int
        }) + 2
    }
}

/// The wrap widths of user and assistant bubbles in a history this wide.
pub open spec fn bubble_widths_spec(chat_width: u16) -> (nat, nat) {
    (
        (if chat_width > 7 {
            chat_width - 6
        } else {
            1
        }) as nat,
        (if chat_width > 11 {
            chat_width - 10
        } else {
            1
        }) as nat,
    )
}

/// The wrap widths of user and assistant bubbles.
pub fn bubble_wrap_widths(chat_width: u16) -> (w: (usize, usize))
    ensures
        w.0 as nat == bubble_widths_spec(chat_width).0,
        w.1 as nat == bubble_widths_spec(chat_width).1,
{
    let wide = chat_width as usize;
    let u = wide.saturating_sub(6);
    let a = wide.saturating_sub(10);
    (if u > 1 {
        u
    } else {
        1
    }, if a > 1 {
        a
    } else {
        1
    })
}

/// The rows one message takes in the history.
pub fn bubble_height(sender: &str, msg: &str, show_internal: bool, user_wrap_w: usize, asst_wrap_w: usize) -> (h: usize)
    requires
        bubble_rows(sender@, msg@, show_internal, user_wrap_w as nat, asst_wrap_w as nat) <= usize::MAX,
    ensures
        h as int == bubble_rows(sender@, msg@, show_internal, user_wrap_w as nat, asst_wrap_w as nat),
{
    if eq_ignore_ascii_case(sender, "tool") && !show_internal {
        return 1;
    }
    let is_user = eq_ignore_ascii_case(sender, "user") || eq_ignore_ascii_case(sender, "system");
    let w = if is_user {
        user_wrap_w
    } else {
        asst_wrap_w
    };
    let lines = wrap_text(msg, w);
    assert(strings_view(lines@).len() == lines@.len());
    let n = lines.len();
    let n1: usize = if n > 1 {
        n
    } else {
        1
    };
    n1 + 2
}

/// The messages of a history: sender, model and text of each.
pub open spec fn chat_views(v: Seq<(String, String, String)>) -> Seq<(Seq<char>, Seq<char>, Seq<char>)> {
    Seq::new(v.len(), |i: int| (v[i].0@, v[i].1@, v[i].2@))
}

/// The rows of every bubble of a history, added up.
pub open spec fn history_rows(h: Seq<(Seq<char>, Seq<char>, Seq<char>)>, show_internal: bool, user_w: nat, asst_w: nat) -> int
    decreases h.len(),
{
    if h.len() == 0 {
        0
    } else {
        history_rows(h.drop_last(), show_internal, user_w, asst_w) + bubble_rows(
            h.last().0,
            h.last().2,
            show_internal,
            user_w,
            asst_w,
        )
    }
}

/// A bubble takes at least one row.
pub proof fn lemma_bubble_rows_positive(sender: Seq<char>, msg: Seq<char>, show_internal: bool, user_w: nat, asst_w: nat)
    ensures
        bubble_rows(sender, msg, show_internal, user_w, asst_w) >= 1,
{
}

/// The rows of a history's first messages are no more than the whole's.
pub proof fn lemma_history_rows_prefix(h: Seq<(Seq<char>, Seq<char>, Seq<char>)>, i: int, show_internal: bool, user_w: nat, asst_w: nat)
    requires
        0 <= i <= h.len(),
    ensures
        0 <= history_rows(h.take(i), show_internal, user_w, asst_w) <= history_rows(h, show_internal, user_w, asst_w),
    decreases h.len(),
{
    if i == h.len() {
        assert(h.take(i) =~= h);
        if h.len() > 0 {
            lemma_history_rows_prefix(h.drop_last(), i - 1, show_internal, user_w, asst_w);
            lemma_bubble_rows_positive(h.last().0, h.last().2, show_internal, user_w, asst_w);
        }
    } else {
        lemma_history_rows_prefix(h.drop_last(), i, show_internal, user_w, asst_w);
        assert(h.drop_last().take(i) =~= h.take(i));
        lemma_bubble_rows_positive(h.last().0, h.last().2, show_internal, user_w, asst_w);
    }
}

/// The rows the history needs: every bubble, and two more for the status
/// line while a reply streams in.
pub open spec fn content_rows(h: Seq<(Seq<char>, Seq<char>, Seq<char>)>, show_internal: bool, user_w: nat, asst_w: nat, streaming_status: bool) -> int {
    history_rows(h, show_internal, user_w, asst_w) + if streaming_status {
        2int
    } else {
        0int
    }
}

/// The rows the whole chat history needs.
pub fn chat_content_height(
    history: &Vec<(String, String, String)>,
    show_internal: bool,
    user_wrap_w: usize,
    asst_wrap_w: usize,
    streaming_status: bool,
) -> (h: usize)
    requires
        content_rows(chat_views(history@), show_internal, user_wrap_w as nat, asst_wrap_w as nat, streaming_status) <= usize::MAX,
    ensures
        h as int == content_rows(chat_views(history@), show_internal, user_wrap_w as nat, asst_wrap_w as nat, streaming_status),
{
    let ghost hv = chat_views(history@);
    let mut total: usize = 0;
    let mut i: usize = 0;
    while i < history.len()
        invariant
            i <= history@.len(),
            hv == chat_views(history@),
            total as int == history_rows(hv.take(i as int), show_internal, user_wrap_w as nat, asst_wrap_w as nat),
            content_rows(hv, show_internal, user_wrap_w as nat, asst_wrap_w as nat, streaming_status) <= usize::MAX,
        decreases history.len() - i,
    {
        proof {
            lemma_history_rows_prefix(hv, i + 1, show_internal, user_wrap_w as nat, asst_wrap_w as nat);
            assert(hv.take(i + 1).drop_last() =~= hv.take(i as int));
            assert(hv.take(i + 1).last() == hv[i as int]);
        }
        let b = bubble_height(history[i].0.as_str(), history[i].2.as_str(), show_internal, user_wrap_w, asst_wrap_w);
        total = total + b;
        i = i + 1;
    }
    assert(hv.take(i as int) =~= hv);
    if streaming_status {
        total + 2
    } else {
        total
    }
}

// ----- the input box -----
/// The hint shown in an empty input box, naming the open workspace.
pub open spec fn input_placeholder(workspace: Option<Seq<char>>) -> Seq<char> {
    match workspace {
        Some(w) => "["@ + w + "] Ketik pesan di sini..."@,
        None => "Ketik pesan di sini..."@,
    }
}

/// The width the typed text wraps to in an input box this wide.
pub open spec fn input_wrap_width(area_width: u16) -> nat {
    let inner: int = if area_width > 6 {
        area_width - 5
    } else {
        1
    };
    (if inner > 3 {
        inner - 2
    } else {
        1
    }) as nat
}

/// The lines of the input box: the typed text wrapped, or the hint when
/// nothing is typed, each indented by two spaces.
pub open spec fn input_rows(input: Seq<char>, workspace: Option<Seq<char>>, area_width: u16) -> Seq<Seq<char>> {
    let raw = if input.len() == 0 {
        seq![input_placeholder(workspace)]
    } else {
        wrapped(input, input_wrap_width(area_width))
    };
    Seq::new(raw.len(), |i: int| "  "@ + raw[i])
}

/// The lines of the input box for the typed text.
pub fn chat_input_lines(input: &str, workspace: Option<&str>, area_width: u16) -> (lines: Vec<String>)
    ensures
        strings_view(lines@) == input_rows(
            input@,
            match workspace {
                Some(w) => Some(w@),
                None => None,
            },
            area_width,
        ),
{
    let ghost ws = match workspace {
        Some(w) => Some(w@),
        None => None,
    };
    let inner = (area_width as usize).saturating_sub(5);
    let inner: usize = if inner > 1 {
        inner
    } else {
        1
    };
    let width = inner.saturating_sub(2);
    let width: usize = if width > 1 {
        width
    } else {
        1
    };
    assert(width as nat == input_wrap_width(area_width));
    let raw: Vec<String> = if input.unicode_len() == 0 {
        let mut p = String::new();
        match workspace {
            Some(w) => {
                p.append("[");
                p.append(w);
                p.append("] Ketik pesan di sini...");
            },
            None => {
                p.append("Ketik pesan di sini...");
            },
        }
        let mut v: Vec<String> = Vec::new();
        v.push(p);
        assert(strings_view(v@) =~= seq![input_placeholder(ws)]);
        v
    } else {
        wrap_text(input, width)
    };
    let ghost rv = strings_view(raw@);
    let mut lines: Vec<String> = Vec::new();
    let mut i: usize = 0;
    while i < raw.len()
        invariant
            i <= raw@.len(),
            rv == strings_view(raw@),
            strings_view(lines@) =~= Seq::new(i as nat, |k: int| "  "@ + rv[k]),
        decreases raw.len() - i,
    {
        let ghost before = strings_view(lines@);
        let mut l = String::from_str("  ");
        l.append(raw[i].as_str());
        assert(l@ == "  "@ + rv[i as int]);
        lines.push(l);
        assert(strings_view(lines@) =~= before.push("  "@ + rv[i as int]));
        i = i + 1;
    }
    lines
}

/// The rows of the suggestion list under the input: none unless a slash
/// command is typed; for `/model`, a header, at most ten models, a footer
/// and a spacer, and a row each for the models hidden above and below;
/// for other commands the header, every suggestion, footer and spacer, if
/// there are any.
pub open spec fn suggestion_rows(input: Seq<char>, total: int, selected: int) -> int {
    if !"/"@.is_prefix_of(input) {
        0
    } else if "/model"@.is_prefix_of(input) {
        let visible = if total < 10 {
            total
        } else {
            10
        };
        let base = 2 + visible + 1;
        if total > 10 {
            let w = suggestion_window_spec(total, selected);
            base + (if selected >= 10 {
                1int
            } else {
                0int
            }) + (if total - w.1 > 0 {
                1int
            } else {
                0int
            })
        } else {
            base
        }
    } else if total > 0 {
        2 + total + 1
    } else {
        0
    }
}

/// The rows of the suggestion list under the input.
pub fn suggestion_panel_height(input: &str, total: usize, selected: usize) -> (h: usize)
    requires
        total + 3 <= usize::MAX,
    ensures
        h as int == suggestion_rows(input@, total as int, selected as int),
{
    if !str_starts_with(input, "/") {
        return 0;
    }
    if str_starts_with(input, "/model") {
        let visible = if total < MAX_VISIBLE_SUGGESTIONS {
            total
        } else {
            MAX_VISIBLE_SUGGESTIONS
        };
        let mut h = 2 + visible + 1;
        if total > MAX_VISIBLE_SUGGESTIONS {
            if selected >= MAX_VISIBLE_SUGGESTIONS {
                h = h + 1;
            }
            let (_start, end) = suggestion_window(total, selected);
            if total - end > 0 {
                h = h + 1;
            }
        }
        h
    } else if total > 0 {
        2 + total + 1
    } else {
        0
    }
}

/// The height of the input box: its lines, a spacer and the status line,
/// the suggestions, and four rows for a pending shell approval, cut to
/// the terminal's 16-bit row count as the layout takes it.
pub fn input_box_height(line_count: usize, suggestion_height: usize, approval_pending: bool) -> (h: u16)
    requires
        line_count + 2 + suggestion_height + 4 <= usize::MAX,
    ensures
        h == (line_count + 2 + suggestion_height + if approval_pending {
            4int
        } else {
            0int
        }) as u16,
{
    let approval: usize = if approval_pending {
        4
    } else {
        0
    };
    (line_count + 2 + suggestion_height + approval) as u16
}


// ----- the status line -----
/// The status label: `TUI`, or a spinner frame and a busy note while a
/// reply streams in.
pub fn status_label(streaming: bool, tick: usize) -> (s: String)
    ensures
        s@ == if streaming {
            "TUI "@ + spinner_frames()[(tick % 10) as int] + " Merespons..."@
        } else {
            "TUI"@
        },
{
    if streaming {
        let mut s = String::from_str("TUI ");
        s.append(spinner_frame(tick));
        s.append(" Merespons...");
        s
    } else {
        String::from_str("TUI")
    }
}

/// The blank run between the status line's left part (label, model and
/// provider, `left` bytes with their separators) and its key hints: what
/// is left of the width, at least one space.
pub open spec fn status_spacer_spec(inner_width: int, left: int, show_internal: bool) -> int {
    let right = 70 + if show_internal {
        11int
    } else {
        9int
    };
    let rest = if inner_width > left {
        inner_width - left
    } else {
        0
    };
    let gap = if rest > right {
        rest - right
    } else {
        0
    };
    if gap > 1 {
        gap
    } else {
        1
    }
}

/// The number of spaces between the status line's two parts.
pub fn status_spacer_len(inner_width: u16, status: &str, model: &str, provider: &str, show_internal: bool) -> (n: usize)
    requires
        6 + status.len() + model.len() + provider.len() <= usize::MAX,
    ensures
        n as int == status_spacer_spec(
            inner_width as int,
            6 + status.len() + model.len() + provider.len(),
            show_internal,
        ),
{
    let left = 2 + status.len() + 3 + model.len() + 1 + provider.len();
    let hint: usize = if show_internal {
        11
    } else {
        9
    };
    let right = 56 + 14 + hint;
    let gap = (inner_width as usize).saturating_sub(left).saturating_sub(right);
    if gap > 1 {
        gap
    } else {
        1
    }
}

/// A profile the active model names, by its model name or its id.
pub open spec fn names_active(p: crate::router::ModelProfileView, active: Seq<char>) -> bool {
    p.model_name == active || p.id == active
}

/// The model and provider the status line shows when no model is set up.
pub open spec fn unconfigured_label() -> (Seq<char>, Seq<char>) {
    ("Belum Dikonfigurasi"@, "None"@)
}

/// The model and provider named on the status line: the first profile
/// that the active model names, else the first profile; with no profiles
/// (also when no router is set up), a note that nothing is set up.
pub fn active_model_label(profiles: &Vec<ModelProfile>, active: &str) -> (r: (String, String))
    ensures
        if profiles@.len() == 0 {
            (r.0@, r.1@) == unconfigured_label()
        } else if exists|i: int| 0 <= i < profiles@.len() && names_active(#[trigger] profiles@[i]@, active@) {
            exists|i: int|
                0 <= i < profiles@.len() && names_active(#[trigger] profiles@[i]@, active@) && (forall|j: int|
                    0 <= j < i ==> !names_active(#[trigger] profiles@[j]@, active@)) && r.0@
                    == profiles@[i].model_name@ && r.1@ == profiles@[i].provider@
        } else {
            r.0@ == profiles@[0].model_name@ && r.1@ == profiles@[0].provider@
        },
{
    if profiles.len() == 0 {
        return (String::from_str("Belum Dikonfigurasi"), String::from_str("None"));
    }
    let mut i: usize = 0;
    while i < profiles.len()
        invariant
            i <= profiles@.len(),
            forall|j: int| 0 <= j < i ==> !names_active(#[trigger] profiles@[j]@, active@),
        decreases profiles.len() - i,
    {
        let p = &profiles[i];
        if crate::text::str_equal(p.model_name.as_str(), active) || crate::text::str_equal(p.id.as_str(), active) {
            assert(names_active(profiles@[i as int]@, active@));
            return (p.model_name.clone(), p.provider.clone());
        }
        i = i + 1;
    }
    (profiles[0].model_name.clone(), profiles[0].provider.clone())
}

// ----- suggestion rows -----
/// `n` spaces.
pub open spec fn spaces(n: nat) -> Seq<char> {
    Seq::new(n, |i: int| ' ')
}

/// A text padded with spaces on the right to `width` characters, as the
/// `{:<width}` format does.
pub open spec fn pad_right(s: Seq<char>, width: nat) -> Seq<char> {
    if s.len() < width {
        s + spaces((width - s.len()) as nat)
    } else {
        s
    }
}

fn push_pad_right(out: &mut String, s: &str, width: usize)
    ensures
        final(out)@ == old(out)@ + pad_right(s@, width as nat),
{
    let ghost start = out@;
    out.append(s);
    let n = s.unicode_len();
    if n < width {
        let mut k: usize = n;
        while k < width
            invariant
                n == s@.len(),
                n <= k <= width,
                out@ =~= start + s@ + spaces((k - n) as nat),
            decreases width - k,
        {
            crate::text::push_char(out, ' ');
            assert(spaces((k + 1 - n) as nat) =~= spaces((k - n) as nat).push(' '));
            k = k + 1;
        }
    } else {
        assert(pad_right(s@, width as nat) == s@);
    }
}

/// The slash commands the input box suggests, with their descriptions.
pub open spec fn command_help() -> Seq<(Seq<char>, Seq<char>)> {
    seq![
        ("/model <id>"@, "   - Ganti model aktif secara cepat"@),
        ("/help"@, "         - Tampilkan daftar perintah lengkap"@),
        ("/refresh"@, "      - Segarkan database agen dan task"@),
        ("/clear"@, "        - Bersihkan cache, history, dan context"@),
        ("/workspace"@, "    - Kembali ke Workspace Selector"@),
        ("/q"@, "            - Keluar dari aplikasi TUI"@),
    ]
}

/// How a suggested command is shown: `/model ` as `/model <id>`, any
/// other as itself.
pub open spec fn command_display(cmd: Seq<char>) -> Seq<char> {
    if cmd == "/model "@ {
        "/model <id>"@
    } else {
        cmd
    }
}

/// The description of the first listed command, from the `k`th on, that
/// is shown as the command or starts with it; none if no such command.
pub open spec fn command_description_from(cmd: Seq<char>, k: int) -> Seq<char>
    decreases 6 - k,
{
    if k < 0 || k >= 6 {
        ""@
    } else if command_help()[k].0 == command_display(cmd) || cmd.is_prefix_of(command_help()[k].0) {
        command_help()[k].1
    } else {
        command_description_from(cmd, k + 1)
    }
}

fn help_entry(k: usize) -> (e: (&'static str, &'static str))
    requires
        k < 6,
    ensures
        e.0@ == command_help()[k as int].0,
        e.1@ == command_help()[k as int].1,
{
    if k == 0 {
        ("/model <id>", "   - Ganti model aktif secara cepat")
    } else if k == 1 {
        ("/help", "         - Tampilkan daftar perintah lengkap")
    } else if k == 2 {
        ("/refresh", "      - Segarkan database agen dan task")
    } else if k == 3 {
        ("/clear", "        - Bersihkan cache, history, dan context")
    } else if k == 4 {
        ("/workspace", "    - Kembali ke Workspace Selector")
    } else {
        ("/q", "            - Keluar dari aplikasi TUI")
    }
}

/// The description shown beside a suggested command.
pub fn command_description(cmd: &str) -> (d: &'static str)
    ensures
        d@ == command_description_from(cmd@, 0),
{
    let is_model = crate::text::str_equal(cmd, "/model ");
    let display: &str = if is_model {
        "/model <id>"
    } else {
        cmd
    };
    assert(display@ == command_display(cmd@));
    let mut k: usize = 0;
    while k < 6
        invariant
            k <= 6,
            display@ == command_display(cmd@),
            command_description_from(cmd@, 0) == command_description_from(cmd@, k as int),
        decreases 6 - k,
    {
        let (name, desc) = help_entry(k);
        if crate::text::str_equal(name, display) || str_starts_with(name, cmd) {
            return desc;
        }
        k = k + 1;
    }
    ""
}

/// The selection mark before a suggested command.
pub open spec fn command_mark(selected: bool) -> Seq<char> {
    if selected {
        " >  "@
    } else {
        "    "@
    }
}

/// The label of a suggested command: its mark and its shown name, padded
/// to fifteen characters.
pub fn command_suggestion_label(cmd: &str, selected: bool) -> (s: String)
    ensures
        s@ == command_mark(selected) + pad_right(command_display(cmd@), 15),
{
    let mut s = if selected {
        String::from_str(" >  ")
    } else {
        String::from_str("    ")
    };
    let display: &str = if crate::text::str_equal(cmd, "/model ") {
        "/model <id>"
    } else {
        cmd
    };
    push_pad_right(&mut s, display, 15);
    s
}

/// The mark before a suggested model: an arrow on the selection, a tick
/// on the active model.
pub open spec fn model_mark(selected: bool, active: bool) -> Seq<char> {
    if selected {
        " >  "@
    } else if active {
        " ✓  "@
    } else {
        "    "@
    }
}

/// The label of a suggested model: its mark and its id, padded to
/// twenty-five characters.
pub fn model_suggestion_label(model_id: &str, selected: bool, active_model: &str) -> (s: String)
    ensures
        s@ == model_mark(selected, model_id@ == active_model@) + pad_right(model_id@, 25),
{
    let is_active = crate::text::str_equal(model_id, active_model);
    let mut s = if selected {
        String::from_str(" >  ")
    } else if is_active {
        String::from_str(" ✓  ")
    } else {
        String::from_str("    ")
    };
    push_pad_right(&mut s, model_id, 25);
    s
}

/// The provider shown beside a suggested model: that of the first profile
/// with the model's id, or `Unknown` (also when no router is set up).
pub fn model_provider_label(profiles: &Vec<ModelProfile>, model_id: &str) -> (s: String)
    ensures
        if exists|i: int| 0 <= i < profiles@.len() && #[trigger] profiles@[i].id@ == model_id@ {
            exists|i: int|
                0 <= i < profiles@.len() && #[trigger] profiles@[i].id@ == model_id@ && (forall|j: int|
                    0 <= j < i ==> #[trigger] profiles@[j].id@ != model_id@) && s@ == " ("@
                    + profiles@[i].provider@ + ")"@
        } else {
            s@ == " (Unknown)"@
        },
{
    let mut s = String::from_str(" (");
    let mut i: usize = 0;
    while i < profiles.len()
        invariant
            i <= profiles@.len(),
            s@ == " ("@,
            forall|j: int| 0 <= j < i ==> #[trigger] profiles@[j].id@ != model_id@,
        decreases profiles.len() - i,
    {
        if crate::text::str_equal(profiles[i].id.as_str(), model_id) {
            s.append(profiles[i].provider.as_str());
            s.append(")");
            assert(s@ =~= " ("@ + profiles@[i as int].provider@ + ")"@);
            return s;
        }
        i = i + 1;
    }
    s.append("Unknown)");
    proof {
        reveal_strlit(" (");
        reveal_strlit("Unknown)");
        reveal_strlit(" (Unknown)");
    }
    assert(s@ =~= " (Unknown)"@);
    s
}


// ----- the model suggestion list -----
/// The search typed after `/model `: the rest of the input from its eighth
/// character, trimmed; nothing when the input is no longer than seven.
pub open spec fn model_query_spec(input: Seq<char>) -> Seq<char> {
    if input.len() > 7 {
        trim_text(input.subrange(7, input.len() as int))
    } else {
        Seq::empty()
    }
}

/// The search typed after `/model `. The input is cut after its seventh
/// byte, so the seventh character must take one byte.
pub fn model_search_query(input: &str) -> (q: &str)
    requires
        "/model"@.is_prefix_of(input@),
        input@.len() > 6 ==> (input@[6] as u32) < 0x80,
    ensures
        q@ == model_query_spec(input@),
{
    let n = input.unicode_len();
    if n > 7 {
        trim_str(input.substring_char(7, n))
    } else {
        let e = "";
        proof {
            reveal_strlit("");
        }
        e
    }
}

/// The header of the model suggestions: the search, when there is one,
/// and the rows shown of how many, when there are any.
pub open spec fn model_list_header_spec(query: Seq<char>, total: nat, start: nat, end: nat) -> Seq<char> {
    let indicator = if query.len() == 0 {
        Seq::empty()
    } else {
        " Cari: '"@ + query + "' |"@
    };
    let pagination = if total > 0 {
        " "@ + indicator + " "@ + decimal_text(start + 1) + " - "@ + decimal_text(end) + " dari "@
            + decimal_text(total) + " "@
    } else {
        Seq::empty()
    };
    "   [Select Model]"@ + pagination + "---------------------------------"@
}

/// The header line of the model suggestions.
#[verifier::rlimit(50)]
#[verifier::spinoff_prover]
pub fn model_list_header(query: &str, total: usize, selected: usize) -> (h: String)
    ensures
        ({
            let w = suggestion_window_spec(total as int, selected as int);
            h@ == model_list_header_spec(query@, total as nat, w.0 as nat, w.1 as nat)
        }),
{
    let (start, end) = suggestion_window(total, selected);
    let mut h = String::from_str("   [Select Model]");
    if total > 0 {
        let ghost h0 = h@;
        h.append(" ");
        if query.unicode_len() > 0 {
            h.append(" Cari: '");
            h.append(query);
            h.append("' |");
        }
        let ghost h1 = h@;
        h.append(" ");
        crate::text::push_decimal(&mut h, (start + 1) as u64);
        h.append(" - ");
        crate::text::push_decimal(&mut h, end as u64);
        h.append(" dari ");
        crate::text::push_decimal(&mut h, total as u64);
        h.append(" ");
        let ghost ind = if query@.len() == 0 {
            Seq::<char>::empty()
        } else {
            " Cari: '"@ + query@ + "' |"@
        };
        assert(h1 =~= h0 + " "@ + ind);
    } else {
        assert(h@ =~= "   [Select Model]"@ + Seq::<char>::empty());
    }
    h.append("---------------------------------");
    h
}

/// The notes around the shown model suggestions: how many models stand
/// above the window, and how many below, each only when there are some.
pub fn model_list_notes(total: usize, selected: usize) -> (n: (Option<String>, Option<String>))
    ensures
        ({
            let w = suggestion_window_spec(total as int, selected as int);
            &&& (n.0 is Some <==> w.0 > 0)
            &&& (n.0 matches Some(a) ==> a@ == "     ▲ (Ada "@ + decimal_text(w.0 as nat) + " model sebelumnya...)"@)
            &&& (n.1 is Some <==> total - w.1 > 0)
            &&& (n.1 matches Some(b) ==> b@ == "     ▼ (Ada "@ + decimal_text((total - w.1) as nat)
                + " model lainnya...)"@)
        }),
{
    let (start, end) = suggestion_window(total, selected);
    let above = if start > 0 {
        let mut a = String::from_str("     ▲ (Ada ");
        crate::text::push_decimal(&mut a, start as u64);
        a.append(" model sebelumnya...)");
        Some(a)
    } else {
        None
    };
    let remaining = total - end;
    let below = if remaining > 0 {
        let mut b = String::from_str("     ▼ (Ada ");
        crate::text::push_decimal(&mut b, remaining as u64);
        b.append(" model lainnya...)");
        Some(b)
    } else {
        None
    };
    (above, below)
}


// ----- the rest of the chat screen -----
/// The sidebar shows on screens at least ninety columns wide.
pub fn show_sidebar(width: u16) -> (r: bool)
    ensures
        r == (width >= 90),
{
    width >= 90
}

/// The header of a tool call's bubble: opened, it names the tool and how
/// to fold it; folded, it also marks a finished call (one whose text says
/// `selesai`) with a tick and a running one with an arrow.
pub fn tool_bubble_header(model: &str, msg: &str, show_internal: bool) -> (h: String)
    ensures
        h@ == if show_internal {
            "Tool: "@ + model@ + " (F3/Ctrl+G to collapse)"@
        } else {
            "Tool: "@ + model@ + " "@ + (if crate::text::has_infix(msg@, "selesai"@) {
                "✓"@
            } else {
                "▶"@
            }) + " (F3/Ctrl+G to expand)"@
        },
{
    let mut h = String::from_str("Tool: ");
    h.append(model);
    if show_internal {
        h.append(" (F3/Ctrl+G to collapse)");
    } else {
        h.append(" ");
        if crate::text::str_contains(msg, "selesai") {
            h.append("✓");
        } else {
            h.append("▶");
        }
        h.append(" (F3/Ctrl+G to expand)");
    }
    h
}

/// The model named over an assistant's bubble: the last bubble, while a
/// reply streams in, says it is still answering.
pub fn assistant_label(model: &str, index: usize, count: usize, streaming: bool) -> (l: String)
    ensures
        l@ == if index as int == (if count > 0 {
            count - 1
        } else {
            0
        }) && streaming {
            model@ + " (Merespons...)"@
        } else {
            model@
        },
{
    let mut l = String::from_str(model);
    if index == count.saturating_sub(1) && streaming {
        l.append(" (Merespons...)");
    }
    l
}

/// The lines that ask to approve a shell command: the tool, the command,
/// a blank line, and the three answers.
pub fn approval_lines(tool_name: &str, command: &str) -> (ls: Vec<String>)
    ensures
        crate::tui::strings_view(ls@) == seq![
            "  ⚠️  PERSETUJUAN EKSEKUSI SHELL: "@ + tool_name@,
            "     $ "@ + command@,
            Seq::<char>::empty(),
            "     Ketik di form input: :approve / :approve always / :deny"@,
        ],
{
    let mut a = String::from_str("  ⚠️  PERSETUJUAN EKSEKUSI SHELL: ");
    a.append(tool_name);
    let mut b = String::from_str("     $ ");
    b.append(command);
    let mut ls: Vec<String> = Vec::new();
    ls.push(a);
    ls.push(b);
    ls.push(String::new());
    ls.push(String::from_str("     Ketik di form input: :approve / :approve always / :deny"));
    assert(crate::tui::strings_view(ls@) =~= seq![
        "  ⚠️  PERSETUJUAN EKSEKUSI SHELL: "@ + tool_name@,
        "     $ "@ + command@,
        Seq::<char>::empty(),
        "     Ketik di form input: :approve / :approve always / :deny"@,
    ]);
    ls
}

/// Where the cursor stands in the input box at column `x`, row `y`: after
/// the hint's indent when nothing is typed, else after the last input line
/// (its length in bytes), on that line, below the suggestions. Lengths and
/// rows are cut to 16 bits, as the terminal takes them.
pub fn input_cursor(x: u16, y: u16, input_empty: bool, last_line_len: usize, line_count: usize, suggestion_height: usize) -> (c: (
    u16,
    u16,
))
    requires
        line_count >= 1,
        line_count - 1 + suggestion_height <= usize::MAX,
        x + 2 <= u16::MAX,
        y + (suggestion_height as u16) <= u16::MAX,
        x + (last_line_len as u16) <= u16::MAX,
        y + ((line_count - 1 + suggestion_height) as u16) <= u16::MAX,
    ensures
        c == if input_empty {
            ((x + 2) as u16, (y + (suggestion_height as u16)) as u16)
        } else {
            ((x + (last_line_len as u16)) as u16, (y + ((line_count - 1 + suggestion_height) as u16)) as u16)
        },
{
    if input_empty {
        (x + 2, y + suggestion_height as u16)
    } else {
        (x + last_line_len as u16, y + (line_count - 1 + suggestion_height) as u16)
    }
}

} // verus!
