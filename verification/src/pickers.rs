//! The lists of the terminal's pickers: the model picker's providers,
//! model families and model types filtered by a search, the command
//! palette's rows grouped by category, and the rows of the home screen and
//! the sidebar.
use vstd::prelude::*;
use vstd::utf8::encode_utf8;
use crate::chat_view::{pad_right, spaces};
use crate::router::{ModelProfile, ModelProfileView};
use crate::text::{decimal_text, has_infix, lowercase_text, push_char, push_decimal, str_contains, to_lowercase_string};
use crate::tui::{accordion_tab_name, strings_view, tab_title, Tab};

verus! {

// ----- searching -----
/// An entry's text matches a (lowercased) search: the search is empty,
/// or the lowercased text holds it.
pub open spec fn search_hit(text: Seq<char>, query: Seq<char>) -> bool {
    query.len() == 0 || has_infix(lowercase_text(text), query)
}

fn hit(text: &str, query: &str) -> (r: bool)
    ensures
        r == search_hit(text@, query@),
{
    if query.unicode_len() == 0 {
        return true;
    }
    let low = to_lowercase_string(text);
    str_contains(low.as_str(), query)
}

// ----- providers -----
/// A provider row of the picker: a tick before a provider already set
/// up, two spaces before any other.
pub open spec fn provider_row(name: Seq<char>, configured: bool) -> Seq<char> {
    if configured {
        "✓ "@ + name
    } else {
        "  "@ + name
    }
}

/// The providers and whether each is set up.
pub open spec fn flag_views(v: Seq<(String, bool)>) -> Seq<(Seq<char>, bool)> {
    Seq::new(v.len(), |i: int| (v[i].0@, v[i].1))
}

/// The rows of the providers that match the search, in order.
pub open spec fn provider_rows(ps: Seq<(Seq<char>, bool)>, query: Seq<char>) -> Seq<Seq<char>>
    decreases ps.len(),
{
    if ps.len() == 0 {
        Seq::empty()
    } else {
        let rest = provider_rows(ps.drop_last(), query);
        if search_hit(ps.last().0, query) {
            rest.push(provider_row(ps.last().0, ps.last().1))
        } else {
            rest
        }
    }
}

/// The provider rows of the model picker for a search (matched without
/// regard to case).
pub fn provider_picker_items(providers: &Vec<(String, bool)>, search: &str) -> (rows: Vec<String>)
    ensures
        strings_view(rows@) == provider_rows(flag_views(providers@), lowercase_text(search@)),
{
    let query = to_lowercase_string(search);
    let ghost ps = flag_views(providers@);
    let mut rows: Vec<String> = Vec::new();
    let mut i: usize = 0;
    while i < providers.len()
        invariant
            i <= providers@.len(),
            ps == flag_views(providers@),
            query@ == lowercase_text(search@),
            strings_view(rows@) == provider_rows(ps.take(i as int), query@),
        decreases providers.len() - i,
    {
        let ghost before = strings_view(rows@);
        assert(ps.take(i + 1).drop_last() =~= ps.take(i as int));
        let (name, configured) = (&providers[i].0, providers[i].1);
        if hit(name.as_str(), query.as_str()) {
            let mut row = if configured {
                String::from_str("✓ ")
            } else {
                String::from_str("  ")
            };
            row.append(name.as_str());
            rows.push(row);
            assert(strings_view(rows@) =~= before.push(provider_row(ps[i as int].0, ps[i as int].1)));
        }
        i = i + 1;
    }
    assert(ps.take(i as int) =~= ps);
    rows
}

// ----- model families -----
/// The names that match the search, in order.
pub open spec fn name_rows(names: Seq<Seq<char>>, query: Seq<char>) -> Seq<Seq<char>>
    decreases names.len(),
{
    if names.len() == 0 {
        Seq::empty()
    } else {
        let rest = name_rows(names.drop_last(), query);
        if search_hit(names.last(), query) {
            rest.push(names.last())
        } else {
            rest
        }
    }
}

/// The first row of the family list, for entering a model by hand.
pub open spec fn manual_entry_row() -> Seq<char> {
    "< Tambah Model Manual >"@
}

/// The family rows of the model picker: the row for entering a model by
/// hand, then the families that match the search.
pub fn family_picker_items(families: &Vec<String>, search: &str) -> (rows: Vec<String>)
    ensures
        strings_view(rows@) == seq![manual_entry_row()] + name_rows(strings_view(families@), lowercase_text(search@)),
{
    let query = to_lowercase_string(search);
    let ghost ns = strings_view(families@);
    let mut rows: Vec<String> = Vec::new();
    rows.push(String::from_str("< Tambah Model Manual >"));
    let mut i: usize = 0;
    while i < families.len()
        invariant
            i <= families@.len(),
            ns == strings_view(families@),
            query@ == lowercase_text(search@),
            strings_view(rows@) == seq![manual_entry_row()] + name_rows(ns.take(i as int), query@),
        decreases families.len() - i,
    {
        let ghost before = strings_view(rows@);
        assert(ns.take(i + 1).drop_last() =~= ns.take(i as int));
        if hit(families[i].as_str(), query.as_str()) {
            rows.push(families[i].clone());
            assert(strings_view(rows@) =~= before.push(ns[i as int]));
            assert(seq![manual_entry_row()] + name_rows(ns.take(i + 1), query@) =~= before.push(ns[i as int]));
        }
        i = i + 1;
    }
    assert(ns.take(i as int) =~= ns);
    rows
}

// ----- model types -----
/// A model type matches the search by its id, its model name, or one of
/// the tasks it suits.
pub open spec fn variant_hit(p: ModelProfileView, query: Seq<char>) -> bool {
    ||| query.len() == 0
    ||| has_infix(lowercase_text(p.id), query)
    ||| has_infix(lowercase_text(p.model_name), query)
    ||| exists|k: int| 0 <= k < p.suitable_for.len() && has_infix(lowercase_text(#[trigger] p.suitable_for[k]), query)
}

/// The ids of the model types that match the search, in order.
pub open spec fn variant_rows(ps: Seq<ModelProfileView>, query: Seq<char>) -> Seq<Seq<char>>
    decreases ps.len(),
{
    if ps.len() == 0 {
        Seq::empty()
    } else {
        let rest = variant_rows(ps.drop_last(), query);
        if variant_hit(ps.last(), query) {
            rest.push(ps.last().id)
        } else {
            rest
        }
    }
}

/// The contents of model profiles.
pub open spec fn profile_views(v: Seq<ModelProfile>) -> Seq<ModelProfileView> {
    Seq::new(v.len(), |i: int| v[i]@)
}

fn suits_search(tasks: &Vec<String>, query: &str) -> (r: bool)
    ensures
        r == exists|k: int| 0 <= k < tasks@.len() && has_infix(lowercase_text(#[trigger] tasks@[k]@), query@),
{
    let mut k: usize = 0;
    while k < tasks.len()
        invariant
            k <= tasks@.len(),
            forall|j: int| 0 <= j < k ==> !has_infix(lowercase_text(#[trigger] tasks@[j]@), query@),
        decreases tasks.len() - k,
    {
        let low = to_lowercase_string(tasks[k].as_str());
        if str_contains(low.as_str(), query) {
            return true;
        }
        k = k + 1;
    }
    false
}

/// The type rows of the model picker: the ids of the types that match the
/// search.
pub fn variant_picker_items(variants: &Vec<ModelProfile>, search: &str) -> (rows: Vec<String>)
    ensures
        strings_view(rows@) == variant_rows(profile_views(variants@), lowercase_text(search@)),
{
    let query = to_lowercase_string(search);
    let ghost ps = profile_views(variants@);
    let mut rows: Vec<String> = Vec::new();
    let mut i: usize = 0;
    while i < variants.len()
        invariant
            i <= variants@.len(),
            ps == profile_views(variants@),
            query@ == lowercase_text(search@),
            strings_view(rows@) == variant_rows(ps.take(i as int), query@),
        decreases variants.len() - i,
    {
        let ghost before = strings_view(rows@);
        assert(ps.take(i + 1).drop_last() =~= ps.take(i as int));
        let v = &variants[i];
        let matched = if query.unicode_len() == 0 {
            true
        } else {
            let id_low = to_lowercase_string(v.id.as_str());
            let name_low = to_lowercase_string(v.model_name.as_str());
            str_contains(id_low.as_str(), query.as_str()) || str_contains(name_low.as_str(), query.as_str())
                || suits_search(&v.suitable_for, query.as_str())
        };
        proof {
            let p = ps[i as int];
            assert(p.suitable_for =~= strings_view(v.suitable_for@));
            assert(matched == variant_hit(p, query@)) by {
                if exists|k: int| 0 <= k < v.suitable_for@.len() && has_infix(lowercase_text(#[trigger] v.suitable_for@[k]@), query@) {
                    let k = choose|k: int| 0 <= k < v.suitable_for@.len() && has_infix(lowercase_text(#[trigger] v.suitable_for@[k]@), query@);
                    assert(p.suitable_for[k] == v.suitable_for@[k]@);
                }
                if exists|k: int| 0 <= k < p.suitable_for.len() && has_infix(lowercase_text(#[trigger] p.suitable_for[k]), query@) {
                    let k = choose|k: int| 0 <= k < p.suitable_for.len() && has_infix(lowercase_text(#[trigger] p.suitable_for[k]), query@);
                    assert(p.suitable_for[k] == v.suitable_for@[k]@);
                }
            }
        }
        if matched {
            rows.push(v.id.clone());
            assert(strings_view(rows@) =~= before.push(ps[i as int].id));
        }
        i = i + 1;
    }
    assert(ps.take(i as int) =~= ps);
    rows
}


// ----- the command palette -----
/// A row of the command palette's list.
#[derive(Debug, Clone, PartialEq, Eq)]
pub enum PaletteRow {
    /// The empty row before each category.
    Spacer,
    /// A category's title, indented by one space.
    Category(String),
    /// A command: its name indented by two spaces, the run of spaces that
    /// pushes its key binding to the right edge, the binding followed by
    /// two spaces, and whether it is the selected command.
    Command { label: String, padding: usize, shortcut: String, selected: bool },
}

/// The content of a palette row.
pub enum PaletteRowView {
    Spacer,
    Category(Seq<char>),
    Command { label: Seq<char>, padding: nat, shortcut: Seq<char>, selected: bool },
}

impl View for PaletteRow {
    type V = PaletteRowView;

    open spec fn view(&self) -> PaletteRowView {
        match self {
            PaletteRow::Spacer => PaletteRowView::Spacer,
            PaletteRow::Category(c) => PaletteRowView::Category(c@),
            PaletteRow::Command { label, padding, shortcut, selected } => PaletteRowView::Command {
                label: label@,
                padding: *padding as nat,
                shortcut: shortcut@,
                selected: *selected,
            },
        }
    }
}

/// The contents of palette rows.
pub open spec fn row_views(v: Seq<PaletteRow>) -> Seq<PaletteRowView> {
    Seq::new(v.len(), |i: int| v[i]@)
}

/// The length of a text in bytes, as `str::len` gives it.
pub open spec fn byte_len(s: Seq<char>) -> int {
    (encode_utf8(s).len() as usize) as int
}

/// The spaces between a command's name and its key binding in a list this
/// wide: what the two and six columns of margins leave, or none.
pub open spec fn palette_padding(width: int, name: Seq<char>, shortcut: Seq<char>) -> nat {
    let used = byte_len(name) + byte_len(shortcut) + 6;
    if width > used {
        (width - used) as nat
    } else {
        0
    }
}

/// The row of the `k`th command of the palette.
pub open spec fn command_row(name: Seq<char>, shortcut: Seq<char>, selected: bool, width: int) -> PaletteRowView {
    PaletteRowView::Command {
        label: "  "@ + name,
        padding: palette_padding(width, name, shortcut),
        shortcut: shortcut + "  "@,
        selected,
    }
}

/// The rows of the palette's first commands, and the category last
/// titled: a spacer and a title open each change of category (none for a
/// first category with an empty name), then a row per command.
pub open spec fn palette_acc(
    items: Seq<(Seq<char>, Seq<char>, Seq<char>, Seq<char>)>,
    selected: int,
    width: int,
) -> (Seq<PaletteRowView>, Seq<char>)
    decreases items.len(),
{
    if items.len() == 0 {
        (Seq::empty(), Seq::empty())
    } else {
        let (rows, cur) = palette_acc(items.drop_last(), selected, width);
        let it = items.last();
        let (rows2, cur2) = if it.0 != cur {
            (rows.push(PaletteRowView::Spacer).push(PaletteRowView::Category(" "@ + it.0)), it.0)
        } else {
            (rows, cur)
        };
        (rows2.push(command_row(it.1, it.2, items.len() - 1 == selected, width)), cur2)
    }
}

/// The rows of the command palette's list for the filtered commands
/// (category, name, key binding, command), the selected index and the
/// list's width.
pub fn palette_rows(items: &Vec<(String, String, String, String)>, selected: usize, width: u16) -> (rows: Vec<PaletteRow>)
    requires
        forall|i: int|
            0 <= i < items@.len() ==> byte_len(#[trigger] items@[i].1@) + byte_len(items@[i].2@) + 6
                <= usize::MAX,
    ensures
        row_views(rows@) == palette_acc(crate::tui::palette_views(items@), selected as int, width as int).0,
{
    let ghost iv = crate::tui::palette_views(items@);
    let mut rows: Vec<PaletteRow> = Vec::new();
    let mut current = String::new();
    let mut i: usize = 0;
    while i < items.len()
        invariant
            i <= items@.len(),
            iv == crate::tui::palette_views(items@),
            forall|k: int|
                0 <= k < items@.len() ==> byte_len(#[trigger] items@[k].1@) + byte_len(items@[k].2@) + 6
                    <= usize::MAX,
            row_views(rows@) == palette_acc(iv.take(i as int), selected as int, width as int).0,
            current@ == palette_acc(iv.take(i as int), selected as int, width as int).1,
        decreases items.len() - i,
    {
        assert(iv.take(i + 1).drop_last() =~= iv.take(i as int));
        assert(iv.take(i + 1).last() == iv[i as int]);
        let ghost before = row_views(rows@);
        let (category, name, shortcut) = (&items[i].0, &items[i].1, &items[i].2);
        let changed = !crate::text::str_equal(category.as_str(), current.as_str());
        let ghost mid = before;
        if changed {
            rows.push(PaletteRow::Spacer);
            let mut title = String::from_str(" ");
            title.append(category.as_str());
            rows.push(PaletteRow::Category(title));
            current = category.clone();
            proof {
                mid = before.push(PaletteRowView::Spacer).push(PaletteRowView::Category(" "@ + iv[i as int].0));
            }
            assert(row_views(rows@) =~= mid);
        }
        let used = name.as_str().len() + shortcut.as_str().len() + 6;
        let padding = (width as usize).saturating_sub(used);
        let mut label = String::from_str("  ");
        label.append(name.as_str());
        let mut keys = shortcut.clone();
        keys.append("  ");
        rows.push(PaletteRow::Command { label, padding, shortcut: keys, selected: i == selected });
        assert(row_views(rows@) =~= mid.push(command_row(iv[i as int].1, iv[i as int].2, i == selected, width as int)));
        i = i + 1;
    }
    assert(iv.take(i as int) =~= iv);
    rows
}

// ----- the home screen -----
/// The rows the home screen's content takes: the banner, the workspace
/// form and the list of at most eight workspaces with its border, the tip,
/// and the spacers between them.
pub fn home_content_height(banner_lines: usize, workspace_count: usize) -> (h: u16)
    requires
        (banner_lines as u16) as int + 20 <= u16::MAX,
    ensures
        h as int == (banner_lines as u16) as int + 12 + if workspace_count < 8 {
            workspace_count as int
        } else {
            8int
        },
{
    let shown: usize = if workspace_count < 8 {
        workspace_count
    } else {
        8
    };
    let list_height: u16 = (shown as u16) + 2;
    let form_height: u16 = 4;
    let tip_height: u16 = 1;
    (banner_lines as u16) + 2 + form_height + 1 + list_height + 2 + tip_height
}

/// A workspace's row on the home screen: an arrow before the selected
/// one, and its name cut to twenty-eight characters and padded to thirty.
pub fn workspace_row_label(name: &str, selected: bool) -> (s: String)
    ensures
        s@ == (if selected {
            "▶ "@
        } else {
            "  "@
        }) + pad_right(if name@.len() > 28 {
            name@.take(28)
        } else {
            name@
        }, 30),
{
    let mut s = if selected {
        String::from_str("▶ ")
    } else {
        String::from_str("  ")
    };
    let ghost start = s@;
    let n = name.unicode_len();
    let keep: usize = if n > 28 {
        28
    } else {
        n
    };
    let ghost shown = if name@.len() > 28 {
        name@.take(28)
    } else {
        name@
    };
    let mut k: usize = 0;
    while k < keep
        invariant
            n == name@.len(),
            keep as int == shown.len(),
            keep <= n,
            shown =~= name@.take(keep as int),
            k <= keep,
            s@ =~= start + name@.take(k as int),
        decreases keep - k,
    {
        push_char(&mut s, name.get_char(k));
        assert(name@.take(k + 1) =~= name@.take(k as int).push(name@[k as int]));
        k = k + 1;
    }
    let mut m: usize = keep;
    while m < 30
        invariant
            keep as int == shown.len(),
            keep <= 28,
            keep <= m <= 30,
            s@ =~= start + shown + spaces((m - keep) as nat),
        decreases 30 - m,
    {
        push_char(&mut s, ' ');
        assert(spaces((m + 1 - keep) as nat) =~= spaces((m - keep) as nat).push(' '));
        m = m + 1;
    }
    assert(spaces(0) =~= Seq::<char>::empty());
    s
}

// ----- the sidebar -----
/// The header of a sidebar tab: a pointer showing whether it is open, and
/// its title with the number of its items when there are any.
pub fn accordion_header(tab: Tab, count: usize, expanded: bool) -> (h: (&'static str, String))
    ensures
        h.0@ == if expanded {
            "▼ "@
        } else {
            "▶ "@
        },
        h.1@ == tab_title(tab) + if count > 0 {
            " ["@ + decimal_text(count as nat) + "]"@
        } else {
            Seq::empty()
        },
{
    let indicator = if expanded {
        "▼ "
    } else {
        "▶ "
    };
    let mut title = String::from_str(accordion_tab_name(tab));
    if count > 0 {
        let ghost t0 = title@;
        title.append(" [");
        push_decimal(&mut title, count as u64);
        title.append("]");
        assert(title@ =~= t0 + " ["@ + decimal_text(count as nat) + "]"@);
    } else {
        assert(title@ =~= tab_title(tab) + Seq::<char>::empty());
    }
    (indicator, title)
}

} // verus!
