//! The Terraria item catalog: items scraped from the wiki, their Chinese
//! names, the cache file, and item search.
use vstd::prelude::*;

use crate::error::AppError;
use crate::names::strings_view;
use crate::paths::{join, path_join};
use crate::text::{
    append, ascii_lower_seq, opt_view, ascii_lowercase, chars_eq, chars_of, contains, contains_exec,
    find_from, find_from_exec, owned, parse_i32, parse_signed, push_char, signed_decimal,
    string_of, string_of_range, trim, trim_bounds, trimmed, vec_eq, i64_text,
};

verus! {

/// An item of the catalog.
#[derive(Debug, Clone)]
pub struct TerrariaItem {
    pub id: i32,
    pub name: String,
    pub internal_name: String,
    pub zh_name: Option<String>,
}

/// The cached catalog of one game version.
#[derive(Debug, Clone)]
pub struct ItemCatalog {
    pub version: String,
    pub source: String,
    pub items: Vec<TerrariaItem>,
}

/// An item as plain data.
pub struct ItemView {
    pub id: i32,
    pub name: Seq<char>,
    pub internal_name: Seq<char>,
    pub zh_name: Option<Seq<char>>,
}


pub open spec fn item_view(i: TerrariaItem) -> ItemView {
    ItemView { id: i.id, name: i.name@, internal_name: i.internal_name@, zh_name: opt_view(i.zh_name) }
}

pub open spec fn items_view(v: Seq<TerrariaItem>) -> Seq<ItemView> {
    Seq::new(v.len(), |i: int| item_view(v[i]))
}

fn copy_item(i: &TerrariaItem) -> (r: TerrariaItem)
    ensures
        item_view(r) == item_view(*i),
{
    TerrariaItem {
        id: i.id,
        name: i.name.clone(),
        internal_name: i.internal_name.clone(),
        zh_name: match &i.zh_name {
            Some(z) => Some(z.clone()),
            None => None,
        },
    }
}

// ───────────────────────── cache file ─────────────────────────

pub open spec fn is_ascii_alnum(c: char) -> bool {
    ('0' <= c && c <= '9') || ('a' <= c && c <= 'z') || ('A' <= c && c <= 'Z')
}

/// A version string made safe as a file name: ASCII letters, digits, `.`,
/// `-` and `_` are kept, anything else becomes `_`.
pub open spec fn safe_version(v: Seq<char>) -> Seq<char> {
    Seq::new(v.len(), |i: int| if is_ascii_alnum(v[i]) || v[i] == '.' || v[i] == '-' || v[i] == '_' {
        v[i]
    } else {
        '_'
    })
}

/// `<data_dir>/items/<safe version>.json`.
pub fn cache_path(data_dir: &str, version: &str) -> (r: String)
    ensures
        r@ == path_join(path_join(data_dir@, "items"@), safe_version(version@) + ".json"@),
{
    let v = chars_of(version);
    let mut name = String::new();
    let mut i: usize = 0;
    while i < v.len()
        invariant
            i <= v.len(),
            name@ == safe_version(v@.take(i as int)),
        decreases v.len() - i,
    {
        let c = v[i];
        let keep = ('0' <= c && c <= '9') || ('a' <= c && c <= 'z') || ('A' <= c && c <= 'Z') || c == '.'
            || c == '-' || c == '_';
        if keep {
            push_char(&mut name, c);
        } else {
            push_char(&mut name, '_');
        }
        i = i + 1;
        assert(name@ =~= safe_version(v@.take(i as int)));
    }
    assert(v@.take(v.len() as int) =~= v@);
    append(&mut name, ".json");
    let d = join(data_dir, "items");
    join(d.as_str(), name.as_str())
}

// ───────────────────────── HTML text ─────────────────────────

/// The scanner's state while stripping markup.
pub struct StripState {
    pub out: Seq<char>,
    pub in_tag: bool,
    pub in_entity: bool,
    pub entity: Seq<char>,
}

/// The text an entity name stands for; unknown entities stand for nothing.
pub open spec fn entity_text(e: Seq<char>) -> Seq<char> {
    if e == "amp"@ {
        "&"@
    } else if e == "quot"@ {
        "\""@
    } else if e == "apos"@ {
        "'"@
    } else if e == "lt"@ {
        "<"@
    } else if e == "gt"@ {
        ">"@
    } else if e == "nbsp"@ {
        " "@
    } else {
        Seq::empty()
    }
}

pub open spec fn strip_step(st: StripState, c: char) -> StripState {
    if st.in_tag {
        StripState { in_tag: c != '>', ..st }
    } else if st.in_entity {
        if c == ';' {
            StripState { out: st.out + entity_text(st.entity), in_tag: false, in_entity: false, entity: Seq::empty() }
        } else {
            StripState { entity: st.entity.push(c), ..st }
        }
    } else if c == '<' {
        StripState { in_tag: true, ..st }
    } else if c == '&' {
        StripState { in_entity: true, ..st }
    } else {
        StripState { out: st.out.push(c), ..st }
    }
}

pub open spec fn strip_run(s: Seq<char>) -> StripState
    decreases s.len(),
{
    if s.len() == 0 {
        StripState { out: Seq::empty(), in_tag: false, in_entity: false, entity: Seq::empty() }
    } else {
        strip_step(strip_run(s.drop_last()), s.last())
    }
}

/// `s` with every `from` replaced by `to`.
pub open spec fn map_char(s: Seq<char>, from: char, to: char) -> Seq<char> {
    Seq::new(s.len(), |i: int| if s[i] == from { to } else { s[i] })
}

/// The text of an HTML fragment: tags dropped, the common entities decoded
/// (others dropped), trimmed, and newlines and tabs turned into spaces.
pub open spec fn html_text(s: Seq<char>) -> Seq<char> {
    map_char(map_char(trim(strip_run(s).out), '\n', ' '), '\t', ' ')
}

fn entity_replacement(e: &Vec<char>) -> (r: String)
    ensures
        r@ == entity_text(e@),
{
    if chars_eq(e, "amp") {
        owned("&")
    } else if chars_eq(e, "quot") {
        owned("\"")
    } else if chars_eq(e, "apos") {
        owned("'")
    } else if chars_eq(e, "lt") {
        owned("<")
    } else if chars_eq(e, "gt") {
        owned(">")
    } else if chars_eq(e, "nbsp") {
        owned(" ")
    } else {
        proof {
            assert(entity_text(e@) =~= Seq::<char>::empty());
        }
        String::new()
    }
}

fn strip_markup(v: &Vec<char>, lo: usize, hi: usize) -> (r: Vec<char>)
    requires
        lo <= hi <= v.len(),
    ensures
        r@ == strip_run(v@.subrange(lo as int, hi as int)).out,
{
    let mut out: Vec<char> = Vec::new();
    let mut in_tag = false;
    let mut in_entity = false;
    let mut entity: Vec<char> = Vec::new();
    let mut i = lo;
    assert(v@.subrange(lo as int, lo as int) =~= Seq::<char>::empty());
    while i < hi
        invariant
            lo <= i <= hi <= v.len(),
            strip_run(v@.subrange(lo as int, i as int)) == (StripState {
                out: out@,
                in_tag,
                in_entity,
                entity: entity@,
            }),
        decreases hi - i,
    {
        let c = v[i];
        assert(v@.subrange(lo as int, i + 1).drop_last() =~= v@.subrange(lo as int, i as int));
        if in_tag {
            if c == '>' {
                in_tag = false;
            }
        } else if in_entity {
            if c == ';' {
                let rep = entity_replacement(&entity);
                let rv = chars_of(rep.as_str());
                let mut k: usize = 0;
                let ghost o0 = out@;
                while k < rv.len()
                    invariant
                        k <= rv.len(),
                        out@ == o0 + rv@.take(k as int),
                    decreases rv.len() - k,
                {
                    out.push(rv[k]);
                    k = k + 1;
                    assert(out@ =~= o0 + rv@.take(k as int));
                }
                assert(rv@.take(rv.len() as int) =~= rv@);
                entity = Vec::new();
                in_entity = false;
            } else {
                entity.push(c);
            }
        } else if c == '<' {
            in_tag = true;
        } else if c == '&' {
            in_entity = true;
        } else {
            out.push(c);
        }
        i = i + 1;
        assert(strip_run(v@.subrange(lo as int, i as int)) == (StripState {
            out: out@,
            in_tag,
            in_entity,
            entity: entity@,
        }));
    }
    out
}

fn map_char_vec(v: &Vec<char>, from: char, to: char) -> (r: Vec<char>)
    ensures
        r@ == map_char(v@, from, to),
{
    let mut r: Vec<char> = Vec::new();
    let mut i: usize = 0;
    while i < v.len()
        invariant
            i <= v.len(),
            r@ =~= map_char(v@.take(i as int), from, to),
        decreases v.len() - i,
    {
        r.push(if v[i] == from { to } else { v[i] });
        i = i + 1;
    }
    assert(v@.take(v.len() as int) =~= v@);
    r
}

fn html_text_range(v: &Vec<char>, lo: usize, hi: usize) -> (r: String)
    requires
        lo <= hi <= v.len(),
    ensures
        r@ == html_text(v@.subrange(lo as int, hi as int)),
{
    let out = strip_markup(v, lo, hi);
    let (a, b) = trim_bounds(&out);
    let mut t: Vec<char> = Vec::new();
    let mut k = a;
    while k < b
        invariant
            a <= k <= b <= out.len(),
            t@ == out@.subrange(a as int, k as int),
        decreases b - k,
    {
        t.push(out[k]);
        k = k + 1;
        assert(t@ =~= out@.subrange(a as int, k as int));
    }
    let m1 = map_char_vec(&t, '\n', ' ');
    let m2 = map_char_vec(&m1, '\t', ' ');
    string_of(&m2)
}

pub fn strip_html(input: &str) -> (r: String)
    ensures
        r@ == html_text(input@),
{
    let v = chars_of(input);
    assert(v@.subrange(0, v.len() as int) =~= v@);
    html_text_range(&v, 0, v.len())
}

// ───────────────────────── tables ─────────────────────────

pub proof fn lemma_find_ge(s: Seq<char>, p: Seq<char>, i: int)
    requires
        find_from(s, p, i) is Some,
    ensures
        i <= find_from(s, p, i)->0,
        find_from(s, p, i)->0 + p.len() <= s.len(),
{
    crate::text::lemma_find_from_some_pub(s, p, i);
}

/// The `<open ...>content</close>` elements of `s` from `off` on, in order:
/// each content runs from after the `>` that ends the opening tag to the
/// closing tag; scanning stops at the first incomplete element.
pub open spec fn elements_from(s: Seq<char>, open: Seq<char>, close: Seq<char>, off: int) -> Seq<(int, int)>
    decreases s.len() + 1 - off,
{
    if off < 0 || close.len() == 0 {
        Seq::empty()
    } else {
        match find_from(s, open, off) {
            None => Seq::empty(),
            Some(start) => match find_from(s, ">"@, start) {
                None => Seq::empty(),
                Some(gt) => match find_from(s, close, gt + 1) {
                    None => Seq::empty(),
                    Some(end) => {
                        proof {
                            lemma_find_ge(s, open, off);
                            lemma_find_ge(s, ">"@, start);
                            lemma_find_ge(s, close, gt + 1);
                        }
                        seq![(gt + 1, end)] + elements_from(s, open, close, end + close.len())
                    },
                },
            },
        }
    }
}

pub open spec fn cells_of(row: Seq<char>) -> Seq<Seq<char>> {
    let els = elements_from(row, "<td"@, "</td>"@, 0);
    Seq::new(els.len(), |i: int| html_text(row.subrange(els[i].0, els[i].1)))
}

/// The element spans found by one scan, as exec indexes.
fn element_spans(v: &Vec<char>, open: &str, close: &str) -> (r: Vec<(usize, usize)>)
    requires
        close@.len() > 0,
    ensures
        r@.len() == elements_from(v@, open@, close@, 0).len(),
        forall|i: int| 0 <= i < r@.len() ==> (r@[i].0 as int, r@[i].1 as int) == #[trigger] elements_from(v@, open@, close@, 0)[i],
        forall|i: int| #![trigger r@[i]] 0 <= i < r@.len() ==> r@[i].0 <= r@[i].1 <= v.len(),
{
    let ov = chars_of(open);
    let cv = chars_of(close);
    let gv = chars_of(">");
    let mut r: Vec<(usize, usize)> = Vec::new();
    let mut off: usize = 0;
    let ghost all = elements_from(v@, open@, close@, 0);
    proof {
        reveal_strlit(">");
    }
    loop
        invariant
            ">"@.len() == 1,
            off <= v.len(),
            ov@ == open@,
            cv@ == close@,
            gv@ == ">"@,
            close@.len() > 0,
            all == elements_from(v@, open@, close@, 0),
            all == r@.map_values(|p: (usize, usize)| (p.0 as int, p.1 as int)) + elements_from(v@, open@, close@, off as int),
            forall|i: int| #![trigger r@[i]] 0 <= i < r@.len() ==> r@[i].0 <= r@[i].1 <= v.len(),
        ensures
            all =~= r@.map_values(|p: (usize, usize)| (p.0 as int, p.1 as int)),
            forall|i: int| #![trigger r@[i]] 0 <= i < r@.len() ==> r@[i].0 <= r@[i].1 <= v.len(),
        decreases v.len() + 1 - off,
    {
        let ghost rest = elements_from(v@, open@, close@, off as int);
        let start = match find_from_exec(v, &ov, off) {
            Some(x) => x,
            None => {
                assert(rest =~= Seq::<(int, int)>::empty());
                break;
            },
        };
        proof { lemma_find_ge(v@, open@, off as int); }
        let gt = match find_from_exec(v, &gv, start) {
            Some(x) => x,
            None => {
                assert(rest =~= Seq::<(int, int)>::empty());
                break;
            },
        };
        proof { lemma_find_ge(v@, ">"@, start as int); }
        let end = match find_from_exec(v, &cv, gt + 1) {
            Some(x) => x,
            None => {
                assert(rest =~= Seq::<(int, int)>::empty());
                break;
            },
        };
        proof { lemma_find_ge(v@, close@, gt + 1); }
        let ghost before = r@;
        r.push((gt + 1, end));
        assert(r@.map_values(|p: (usize, usize)| (p.0 as int, p.1 as int)) =~= before.map_values(
            |p: (usize, usize)| (p.0 as int, p.1 as int),
        ).push(((gt + 1) as int, end as int)));
        assert(rest == seq![((gt + 1) as int, end as int)] + elements_from(v@, open@, close@, end + close@.len()));
        assert(before.map_values(|p: (usize, usize)| (p.0 as int, p.1 as int)) + rest =~= r@.map_values(
            |p: (usize, usize)| (p.0 as int, p.1 as int),
        ) + elements_from(v@, open@, close@, end + close@.len()));
        off = end + cv.len();
    }
    assert forall|i: int| 0 <= i < r@.len() implies (r@[i].0 as int, r@[i].1 as int) == #[trigger] all[i] by {
        assert(r@.map_values(|p: (usize, usize)| (p.0 as int, p.1 as int))[i] == (r@[i].0 as int, r@[i].1 as int));
    }
    r
}


fn cells_in(v: &Vec<char>) -> (r: Vec<String>)
    ensures
        strings_view(r@) == cells_of(v@),
{
    proof {
        reveal_strlit("</td>");
    }
    let spans = element_spans(v, "<td", "</td>");
    let mut r: Vec<String> = Vec::new();
    let mut i: usize = 0;
    while i < spans.len()
        invariant
            i <= spans.len(),
            spans@.len() == elements_from(v@, "<td"@, "</td>"@, 0).len(),
            forall|k: int| 0 <= k < spans@.len() ==> (spans@[k].0 as int, spans@[k].1 as int) == #[trigger] elements_from(v@, "<td"@, "</td>"@, 0)[k],
            forall|k: int| #![trigger spans@[k]] 0 <= k < spans@.len() ==> spans@[k].0 <= spans@[k].1 <= v.len(),
            strings_view(r@) =~= cells_of(v@).take(i as int),
        decreases spans.len() - i,
    {
        let (a, b) = spans[i];
        assert(spans@[i as int].0 <= spans@[i as int].1 <= v.len());
        let t = html_text_range(v, a, b);
        let ghost els = elements_from(v@, "<td"@, "</td>"@, 0);
        assert((a as int, b as int) == els[i as int]);
        assert(cells_of(v@)[i as int] == t@);
        let ghost old_r = r@;
        r.push(t);
        assert(strings_view(r@) =~= strings_view(old_r).push(t@));
        assert(cells_of(v@).take(i + 1) =~= cells_of(v@).take(i as int).push(cells_of(v@)[i as int]));
        i = i + 1;
        assert(strings_view(r@) =~= cells_of(v@).take(i as int));
    }
    assert(cells_of(v@).take(spans.len() as int) =~= cells_of(v@));
    r
}

/// The text of each `<td>` cell of a table row.
pub fn extract_table_cells(row: &str) -> (r: Vec<String>)
    ensures
        strings_view(r@) == cells_of(row@),
{
    let v = chars_of(row);
    cells_in(&v)
}

// ───────────────────────── Chinese names ─────────────────────────

/// The `(id, Chinese name)` entry of a table row, if it has one: at least
/// three cells, a numeric id in the first, and non-empty Chinese and internal
/// names in the next two (rows marked 无官方名称, "no official name", skipped).
pub open spec fn row_entry(row: Seq<char>) -> Option<(int, Seq<char>)> {
    let cells = cells_of(row);
    if cells.len() >= 3 {
        match parse_signed(trim(cells[0]), i32::MAX as nat) {
            Some(id) => {
                let zh = trim(cells[1]);
                let internal = trim(cells[2]);
                if zh.len() > 0 && internal.len() > 0 && !contains(zh, "无官方名称"@) {
                    Some((id, zh))
                } else {
                    None
                }
            },
            None => None,
        }
    } else {
        None
    }
}

/// The entries of the first `k` rows of `html`, in order.
pub open spec fn zh_entries_upto(html: Seq<char>, k: int) -> Seq<(int, Seq<char>)>
    decreases k,
{
    if k <= 0 {
        Seq::empty()
    } else {
        let rows = elements_from(html, "<tr"@, "</tr>"@, 0);
        let prev = zh_entries_upto(html, k - 1);
        match row_entry(html.subrange(rows[k - 1].0, rows[k - 1].1)) {
            Some(e) => prev.push(e),
            None => prev,
        }
    }
}

/// The `(id, Chinese name)` entries of the wiki's item id page, in page
/// order; as a map, a later entry for an id replaces an earlier one.
pub open spec fn zh_entries(html: Seq<char>) -> Seq<(int, Seq<char>)> {
    zh_entries_upto(html, elements_from(html, "<tr"@, "</tr>"@, 0).len() as int)
}

pub open spec fn entries_view(v: Seq<(i32, String)>) -> Seq<(int, Seq<char>)> {
    Seq::new(v.len(), |i: int| (v[i].0 as int, v[i].1@))
}

fn row_entry_exec(v: &Vec<char>, lo: usize, hi: usize) -> (r: Option<(i32, String)>)
    requires
        lo <= hi <= v.len(),
    ensures
        r matches Some((id, zh)) ==> row_entry(v@.subrange(lo as int, hi as int)) == Some((id as int, zh@)),
        r is None ==> row_entry(v@.subrange(lo as int, hi as int)) is None,
{
    let row = string_of_range(v, lo, hi);
    let rv = chars_of(row.as_str());
    let cells = cells_in(&rv);
    if cells.len() < 3 {
        return None;
    }
    assert(cells_of(rv@)[0] == cells@[0]@);
    assert(cells_of(rv@)[1] == cells@[1]@);
    assert(cells_of(rv@)[2] == cells@[2]@);
    let c0 = trimmed(cells[0].as_str());
    let id = match parse_i32(c0.as_str()) {
        Some(id) => id,
        None => {
            return None;
        },
    };
    let zh = trimmed(cells[1].as_str());
    let internal = trimmed(cells[2].as_str());
    let zv = chars_of(zh.as_str());
    let marker = chars_of("无官方名称");
    if zh.unicode_len() > 0 && internal.unicode_len() > 0 && !contains_exec(&zv, &marker) {
        Some((id, zh))
    } else {
        None
    }
}

pub fn parse_zh_item_id_page(html: &str) -> (r: Vec<(i32, String)>)
    ensures
        entries_view(r@) == zh_entries(html@),
{
    proof {
        reveal_strlit("</tr>");
    }
    let v = chars_of(html);
    let spans = element_spans(&v, "<tr", "</tr>");
    let mut r: Vec<(i32, String)> = Vec::new();
    let mut i: usize = 0;
    assert(entries_view(r@) =~= zh_entries_upto(html@, 0));
    while i < spans.len()
        invariant
            i <= spans.len(),
            v@ == html@,
            spans@.len() == elements_from(v@, "<tr"@, "</tr>"@, 0).len(),
            forall|k: int| 0 <= k < spans@.len() ==> (spans@[k].0 as int, spans@[k].1 as int) == #[trigger] elements_from(v@, "<tr"@, "</tr>"@, 0)[k],
            forall|k: int| #![trigger spans@[k]] 0 <= k < spans@.len() ==> spans@[k].0 <= spans@[k].1 <= v.len(),
            entries_view(r@) =~= zh_entries_upto(html@, i as int),
        decreases spans.len() - i,
    {
        let (a, b) = spans[i];
        assert(spans@[i as int].0 <= spans@[i as int].1 <= v.len());
        let ghost rows = elements_from(html@, "<tr"@, "</tr>"@, 0);
        assert((a as int, b as int) == rows[i as int]);
        let ghost old_r = r@;
        match row_entry_exec(&v, a, b) {
            Some(e) => {
                r.push(e);
                assert(entries_view(r@) =~= entries_view(old_r).push((e.0 as int, e.1@)));
            },
            None => {},
        }
        i = i + 1;
    }
    r
}

// ───────────────────────── items from the wiki ─────────────────────────

/// What the catalog reads of one row of the wiki's item query.
#[derive(Debug, Clone)]
pub struct CargoRow {
    /// Whether the row has a `title` object.
    pub has_title: bool,
    /// `itemid`, when it is a string.
    pub itemid_text: Option<String>,
    /// `itemid`, when it is an integer.
    pub itemid_number: Option<i64>,
    /// `name`, when it is a string.
    pub name: Option<String>,
    /// `internalname`, when it is a string.
    pub internal_name: Option<String>,
}

pub open spec fn text_or_empty(o: Option<String>) -> Seq<char> {
    match o {
        Some(s) => s@,
        None => Seq::empty(),
    }
}

/// The item of a row: its id from the text (parsed) or else the number (cut
/// to 32 bits), and its trimmed names; rows without a title or id, with an
/// empty name, or an empty or `None` internal name give none.
pub open spec fn cargo_item(row: CargoRow) -> Option<ItemView> {
    let id: Option<i32> = match (match row.itemid_text {
        Some(t) => parse_signed(t@, i32::MAX as nat),
        None => None,
    }) {
        Some(v) => Some(v as i32),
        None => match row.itemid_number {
            Some(n) => Some(n as i32),
            None => None,
        },
    };
    let name = trim(text_or_empty(row.name));
    let internal = trim(text_or_empty(row.internal_name));
    if !row.has_title || id is None {
        None
    } else if name.len() > 0 && internal.len() > 0 && internal != "None"@ {
        Some(ItemView { id: id->0, name, internal_name: internal, zh_name: None })
    } else {
        None
    }
}

pub open spec fn cargo_items_upto(rows: Seq<CargoRow>, k: int) -> Seq<ItemView>
    decreases k,
{
    if k <= 0 {
        Seq::empty()
    } else {
        let prev = cargo_items_upto(rows, k - 1);
        match cargo_item(rows[k - 1]) {
            Some(it) => prev.push(it),
            None => prev,
        }
    }
}

fn cargo_item_exec(row: &CargoRow) -> (r: Option<TerrariaItem>)
    ensures
        r matches Some(it) ==> cargo_item(*row) == Some(item_view(it)),
        r is None ==> cargo_item(*row) is None,
{
    if !row.has_title {
        return None;
    }
    let parsed: Option<i32> = match &row.itemid_text {
        Some(t) => parse_i32(t.as_str()),
        None => None,
    };
    let id: i32 = match parsed {
        Some(v) => v,
        None => match row.itemid_number {
            Some(n) => n as i32,
            None => {
                return None;
            },
        },
    };
    let name = match &row.name {
        Some(n) => trimmed(n.as_str()),
        None => String::new(),
    };
    let internal = match &row.internal_name {
        Some(n) => trimmed(n.as_str()),
        None => String::new(),
    };
    proof {
        assert(trim(Seq::<char>::empty()) =~= Seq::<char>::empty());
    }
    if name.unicode_len() > 0 && internal.unicode_len() > 0 && !crate::text::str_eq(internal.as_str(), "None") {
        Some(TerrariaItem { id, name, internal_name: internal, zh_name: None })
    } else {
        None
    }
}

/// The items of the wiki's answer; `None` stands for an answer without a
/// `cargoquery` list, which is refused.
pub fn parse_cargo_items(rows: Option<&Vec<CargoRow>>) -> (r: Result<Vec<TerrariaItem>, AppError>)
    ensures
        rows is None ==> (r matches Err(AppError::BadRequest(m)) && m@ == "Invalid Terraria item catalog response"@),
        rows matches Some(rs) ==> (r matches Ok(items) && items_view(items@) == cargo_items_upto(rs@, rs@.len() as int)),
{
    let rows = match rows {
        Some(r) => r,
        None => {
            return Err(AppError::BadRequest(owned("Invalid Terraria item catalog response")));
        },
    };
    let mut items: Vec<TerrariaItem> = Vec::new();
    let mut i: usize = 0;
    assert(items_view(items@) =~= cargo_items_upto(rows@, 0));
    while i < rows.len()
        invariant
            i <= rows.len(),
            items_view(items@) =~= cargo_items_upto(rows@, i as int),
        decreases rows.len() - i,
    {
        let ghost before = items@;
        match cargo_item_exec(&rows[i]) {
            Some(it) => {
                items.push(it);
                assert(items_view(items@) =~= items_view(before).push(item_view(it)));
            },
            None => {},
        }
        i = i + 1;
    }
    Ok(items)
}

/// The Chinese name recorded for `id`: the last entry for it.
pub open spec fn zh_lookup(names: Seq<(int, Seq<char>)>, id: int) -> Option<Seq<char>>
    decreases names.len(),
{
    if names.len() == 0 {
        None
    } else if names.last().0 == id {
        Some(names.last().1)
    } else {
        zh_lookup(names.drop_last(), id)
    }
}

/// An item with its Chinese name filled in when one is known, non-empty and
/// different from the English name; otherwise unchanged.
pub open spec fn with_zh(item: ItemView, names: Seq<(int, Seq<char>)>) -> ItemView {
    match zh_lookup(names, item.id as int) {
        Some(z) => if z.len() > 0 && z != item.name {
            ItemView { zh_name: Some(z), ..item }
        } else {
            item
        },
        None => item,
    }
}

fn zh_lookup_exec(names: &Vec<(i32, String)>, id: i32) -> (r: Option<String>)
    ensures
        opt_view(r) == zh_lookup(entries_view(names@), id as int),
{
    let mut i = names.len();
    assert(entries_view(names@).take(i as int) =~= entries_view(names@));
    while i > 0
        invariant
            i <= names.len(),
            zh_lookup(entries_view(names@), id as int) == zh_lookup(entries_view(names@).take(i as int), id as int),
        decreases i,
    {
        assert(entries_view(names@).take(i as int).drop_last() =~= entries_view(names@).take(i - 1));
        if names[i - 1].0 == id {
            return Some(names[i - 1].1.clone());
        }
        i = i - 1;
    }
    None
}

/// The items with their Chinese names filled in.
pub fn apply_zh_names(items: Vec<TerrariaItem>, names: &Vec<(i32, String)>) -> (r: Vec<TerrariaItem>)
    ensures
        items_view(r@) == Seq::new(items@.len(), |i: int| with_zh(item_view(items@[i]), entries_view(names@))),
{
    let mut out: Vec<TerrariaItem> = Vec::new();
    let mut i: usize = 0;
    while i < items.len()
        invariant
            i <= items.len(),
            items_view(out@) =~= Seq::new(i as nat, |k: int| with_zh(item_view(items@[k]), entries_view(names@))),
        decreases items.len() - i,
    {
        let it = &items[i];
        let mut copy = copy_item(it);
        match zh_lookup_exec(names, it.id) {
            Some(z) => {
                if z.unicode_len() > 0 && !crate::text::str_eq(z.as_str(), it.name.as_str()) {
                    copy.zh_name = Some(z);
                }
            },
            None => {},
        }
        let ghost before = out@;
        out.push(copy);
        assert(items_view(out@) =~= items_view(before).push(item_view(copy)));
        i = i + 1;
    }
    out
}

// ───────────────────────── search ─────────────────────────

/// Whether an item matches a (trimmed, lower-cased) query: every item matches
/// an empty query; otherwise the query is the item's id or occurs in its
/// English, internal or Chinese name (ignoring ASCII case).
pub open spec fn item_matches(it: ItemView, q: Seq<char>) -> bool {
    q.len() == 0 || signed_decimal(it.id as int) == q || contains(ascii_lower_seq(it.name), q)
        || contains(ascii_lower_seq(it.internal_name), q) || contains(
        ascii_lower_seq(match it.zh_name {
            Some(z) => z,
            None => Seq::empty(),
        }),
        q,
    )
}

pub open spec fn matching_items(items: Seq<ItemView>, q: Seq<char>) -> Seq<ItemView>
    decreases items.len(),
{
    if items.len() == 0 {
        Seq::empty()
    } else {
        let prev = matching_items(items.drop_last(), q);
        if item_matches(items.last(), q) {
            prev.push(items.last())
        } else {
            prev
        }
    }
}

proof fn lemma_matching_prefix(items: Seq<ItemView>, q: Seq<char>, i: int)
    requires
        0 <= i <= items.len(),
    ensures
        matching_items(items.take(i), q).len() <= matching_items(items, q).len(),
        matching_items(items, q).take(matching_items(items.take(i), q).len() as int) == matching_items(items.take(i), q),
    decreases items.len() - i,
{
    if i == items.len() {
        assert(items.take(i) =~= items);
        assert(matching_items(items, q).take(matching_items(items, q).len() as int) =~= matching_items(items, q));
    } else {
        lemma_matching_prefix(items, q, i + 1);
        assert(items.take(i + 1).drop_last() =~= items.take(i));
        let a = matching_items(items.take(i), q);
        let b = matching_items(items.take(i + 1), q);
        let all = matching_items(items, q);
        assert(all.take(a.len() as int) =~= b.take(a.len() as int));
        assert(b.take(a.len() as int) =~= a);
    }
}

/// The query as matched: trimmed and in ASCII lower case.
pub open spec fn search_key(query: Option<&str>) -> Seq<char> {
    ascii_lower_seq(trim(match query {
        Some(q) => q@,
        None => Seq::empty(),
    }))
}

/// The result limit, kept between 1 and 10000.
pub open spec fn clamped_limit(limit: usize) -> int {
    if limit < 1 {
        1
    } else if limit > 10000 {
        10000
    } else {
        limit as int
    }
}

fn item_matches_exec(it: &TerrariaItem, q: &Vec<char>) -> (r: bool)
    ensures
        r == item_matches(item_view(*it), q@),
{
    if q.len() == 0 {
        return true;
    }
    let idt = i64_text(it.id as i64);
    let idv = chars_of(idt.as_str());
    if vec_eq(&idv, q) {
        return true;
    }
    let n = ascii_lowercase(&chars_of(it.name.as_str()));
    let m = ascii_lowercase(&chars_of(it.internal_name.as_str()));
    let z = match &it.zh_name {
        Some(s) => chars_of(s.as_str()),
        None => Vec::new(),
    };
    let zl = ascii_lowercase(&z);
    contains_exec(&n, q) || contains_exec(&m, q) || contains_exec(&zl, q)
}

/// The first `limit` (kept between 1 and 10000) catalog items that match the
/// query, in catalog order.
pub fn filter_items(catalog: &ItemCatalog, query: Option<&str>, limit: usize) -> (r: Vec<TerrariaItem>)
    ensures
        items_view(r@) == matching_items(items_view(catalog.items@), search_key(query)).take(
            if matching_items(items_view(catalog.items@), search_key(query)).len() < clamped_limit(limit) {
                matching_items(items_view(catalog.items@), search_key(query)).len() as int
            } else {
                clamped_limit(limit)
            },
        ),
{
    let raw = match query {
        Some(q) => trimmed(q),
        None => String::new(),
    };
    proof {
        assert(trim(Seq::<char>::empty()) =~= Seq::<char>::empty());
    }
    let q = ascii_lowercase(&chars_of(raw.as_str()));
    let lim: usize = if limit < 1 {
        1
    } else if limit > 10000 {
        10000
    } else {
        limit
    };
    let ghost all = items_view(catalog.items@);
    let mut r: Vec<TerrariaItem> = Vec::new();
    let mut i: usize = 0;
    assert(all.take(0) =~= Seq::<ItemView>::empty());
    while i < catalog.items.len() && r.len() < lim
        invariant
            i <= catalog.items.len(),
            all == items_view(catalog.items@),
            q@ == search_key(query),
            items_view(r@) =~= matching_items(all.take(i as int), q@),
            r.len() <= lim,
        decreases catalog.items.len() - i,
    {
        let it = &catalog.items[i];
        assert(all.take(i + 1).drop_last() =~= all.take(i as int));
        assert(all.take(i + 1).last() == item_view(*it));
        if item_matches_exec(it, &q) {
            let ghost before = r@;
            r.push(copy_item(it));
            assert(items_view(r@) =~= items_view(before).push(item_view(*it)));
        }
        i = i + 1;
    }
    proof {
        lemma_matching_prefix(all, q@, i as int);
        let m = matching_items(all, q@);
        if r.len() < lim {
            assert(all.take(i as int) =~= all);
            assert(m.take(m.len() as int) =~= m);
        }
    }
    r
}

/// A cached catalog is used only when it already has Chinese names.
pub fn has_chinese_names(catalog: &ItemCatalog) -> (r: bool)
    ensures
        r == exists|i: int| 0 <= i < catalog.items@.len() && (#[trigger] catalog.items@[i]).zh_name is Some,
{
    let mut i: usize = 0;
    while i < catalog.items.len()
        invariant
            i <= catalog.items.len(),
            forall|k: int| 0 <= k < i ==> (#[trigger] catalog.items@[k]).zh_name is None,
        decreases catalog.items.len() - i,
    {
        if catalog.items[i].zh_name.is_some() {
            return true;
        }
        i = i + 1;
    }
    false
}

/// Where a downloaded catalog says it came from.
pub fn catalog_source(with_chinese: bool) -> (r: String)
    ensures
        r@ == (if with_chinese {
            "terraria.wiki.gg Cargo Items + zh Item_IDs"@
        } else {
            "terraria.wiki.gg Cargo Items"@
        }),
{
    if with_chinese {
        owned("terraria.wiki.gg Cargo Items + zh Item_IDs")
    } else {
        owned("terraria.wiki.gg Cargo Items")
    }
}

/// Whether an item with `id` occurs among `items`.
pub open spec fn has_id(items: Seq<ItemView>, id: i32) -> bool {
    exists|k: int| 0 <= k < items.len() && (#[trigger] items[k]).id == id
}

/// The first item with `id` (meaningful when there is one).
pub open spec fn first_with_id(items: Seq<ItemView>, id: i32) -> ItemView
    decreases items.len(),
{
    if items.len() == 0 {
        arbitrary()
    } else if items[0].id == id {
        items[0]
    } else {
        first_with_id(items.drop_first(), id)
    }
}

/// The downloaded items made into a catalog: sorted by id, each id once,
/// kept from its first occurrence.
pub open spec fn is_catalog_of(out: Seq<ItemView>, items: Seq<ItemView>) -> bool {
    &&& forall|a: int, b: int| 0 <= a < b < out.len() ==> (#[trigger] out[a]).id < (#[trigger] out[b]).id
    &&& forall|k: int| 0 <= k < out.len() ==> #[trigger] out[k] == first_with_id(items, out[k].id) && has_id(items, out[k].id)
    &&& forall|id: i32| has_id(items, id) ==> #[trigger] has_id(out, id)
}

proof fn lemma_first_with_id_push(items: Seq<ItemView>, x: ItemView, id: i32)
    ensures
        has_id(items, id) ==> first_with_id(items.push(x), id) == first_with_id(items, id),
        !has_id(items, id) && x.id == id ==> first_with_id(items.push(x), id) == x,
    decreases items.len(),
{
    if items.len() > 0 {
        let rest = items.drop_first();
        assert(items.push(x).drop_first() =~= rest.push(x));
        lemma_first_with_id_push(rest, x, id);
        if items[0].id != id {
            if has_id(items, id) {
                let k = choose|k: int| 0 <= k < items.len() && (#[trigger] items[k]).id == id;
                assert(rest[k - 1].id == id);
            }
            if has_id(rest, id) {
                let k = choose|k: int| 0 <= k < rest.len() && (#[trigger] rest[k]).id == id;
                assert(items[k + 1].id == id);
            }
        }
    } else {
        assert(items.push(x)[0] == x);
    }
}

/// The error when the download held no items.
pub fn empty_catalog_error() -> (r: AppError)
    ensures
        r matches AppError::ProcessError(m) && m@ == "Downloaded Terraria item catalog is empty"@,
{
    AppError::ProcessError(owned("Downloaded Terraria item catalog is empty"))
}

/// The downloaded items as a catalog: sorted by id with each id once (the
/// first of each); `ProcessError` when there are none.
pub fn catalog_items(items: &Vec<TerrariaItem>) -> (r: Result<Vec<TerrariaItem>, AppError>)
    ensures
        items@.len() == 0 <==> r is Err,
        r matches Err(e) ==> (e matches AppError::ProcessError(m) && m@ == "Downloaded Terraria item catalog is empty"@),
        r matches Ok(v) ==> is_catalog_of(items_view(v@), items_view(items@)),
{
    if items.len() == 0 {
        return Err(empty_catalog_error());
    }
    let mut out: Vec<TerrariaItem> = Vec::new();
    let mut i: usize = 0;
    assert(items_view(items@).take(0) =~= Seq::<ItemView>::empty());
    while i < items.len()
        invariant
            i <= items@.len(),
            is_catalog_of(items_view(out@), items_view(items@).take(i as int)),
        decreases items@.len() - i,
    {
        let ghost iv = items_view(items@);
        let ghost pre = iv.take(i as int);
        let ghost ov = items_view(out@);
        let x = &items[i];
        assert(iv[i as int] == item_view(*x));
        assert(iv.take(i + 1) =~= pre.push(item_view(*x)));
        let mut k: usize = 0;
        while k < out.len() && out[k].id < x.id
            invariant
                k <= out@.len(),
                ov == items_view(out@),
                forall|m: int| 0 <= m < k ==> (#[trigger] ov[m]).id < x.id,
            decreases out@.len() - k,
        {
            assert(ov[k as int] == item_view(out@[k as int]));
            k = k + 1;
        }
        let dup = k < out.len() && out[k].id == x.id;
        if k < out.len() {
            assert(ov[k as int] == item_view(out@[k as int]));
        }
        proof {
            assert forall|id: i32| #[trigger] has_id(pre.push(item_view(*x)), id) implies has_id(pre, id) || id == x.id by {
                let m = choose|m: int| 0 <= m < pre.len() + 1 && (#[trigger] pre.push(item_view(*x))[m]).id == id;
                if m < pre.len() {
                    assert(pre[m].id == id);
                }
            }
            assert forall|id: i32| #[trigger] has_id(pre, id) implies has_id(pre.push(item_view(*x)), id) by {
                let m = choose|m: int| 0 <= m < pre.len() && (#[trigger] pre[m]).id == id;
                assert(pre.push(item_view(*x))[m].id == id);
            }
            assert forall|id: i32| has_id(pre, id) implies first_with_id(pre.push(item_view(*x)), id) == first_with_id(pre, id) by {
                lemma_first_with_id_push(pre, item_view(*x), id);
            }
        }
        if dup {
            proof {
                assert(has_id(ov, x.id));
                assert(has_id(pre, x.id)) by {
                    assert(has_id(pre, ov[k as int].id));
                }
                assert(is_catalog_of(ov, pre.push(item_view(*x)))) by {
                    assert forall|k2: int| 0 <= k2 < ov.len() implies #[trigger] ov[k2] == first_with_id(pre.push(item_view(*x)), ov[k2].id) && has_id(pre.push(item_view(*x)), ov[k2].id) by {
                        assert(has_id(pre, ov[k2].id));
                    }
                    assert forall|id: i32| has_id(pre.push(item_view(*x)), id) implies #[trigger] has_id(ov, id) by {
                        if id != x.id {
                            assert(has_id(pre, id));
                        }
                    }
                }
            }
        } else {
            proof {
                assert(!has_id(pre, x.id)) by {
                    if has_id(pre, x.id) {
                        assert(has_id(ov, x.id));
                        let m = choose|m: int| 0 <= m < ov.len() && (#[trigger] ov[m]).id == x.id;
                        if m < k {
                            assert(ov[m].id < x.id);
                        } else if m == k {
                        } else {
                            assert(ov[k as int].id < ov[m].id);
                        }
                    }
                }
                lemma_first_with_id_push(pre, item_view(*x), x.id);
            }
            out.insert(k, copy_item(x));
            proof {
                let nv = items_view(out@);
                let np = pre.push(item_view(*x));
                assert(nv =~= ov.insert(k as int, item_view(*x)));
                assert forall|a: int, b: int| 0 <= a < b < nv.len() implies (#[trigger] nv[a]).id < (#[trigger] nv[b]).id by {
                    if b < k {
                    } else if b == k {
                    } else if a == k {
                        if b - 1 > k {
                            assert(ov[k as int].id < ov[b - 1].id);
                        }
                    } else if a < k {
                    } else {
                    }
                }
                assert forall|k2: int| 0 <= k2 < nv.len() implies #[trigger] nv[k2] == first_with_id(np, nv[k2].id) && has_id(np, nv[k2].id) by {
                    if k2 == k {
                        assert(np[pre.len() as int].id == x.id);
                    } else if k2 < k {
                        assert(nv[k2] == ov[k2]);
                        assert(has_id(pre, ov[k2].id));
                    } else {
                        assert(nv[k2] == ov[k2 - 1]);
                        assert(has_id(pre, ov[k2 - 1].id));
                    }
                }
                assert forall|id: i32| has_id(np, id) implies #[trigger] has_id(nv, id) by {
                    if id == x.id {
                        assert(nv[k as int].id == id);
                    } else {
                        assert(has_id(pre, id));
                        assert(has_id(ov, id));
                        let m = choose|m: int| 0 <= m < ov.len() && (#[trigger] ov[m]).id == id;
                        if m < k {
                            assert(nv[m].id == id);
                        } else {
                            assert(nv[m + 1].id == id);
                        }
                    }
                }
            }
        }
        i = i + 1;
    }
    assert(items_view(items@).take(items@.len() as int) =~= items_view(items@));
    Ok(out)
}

// ───────────────────────── laws ─────────────────────────

/// Searching finds an item by any of its names: when the (trimmed,
/// lower-cased) query is empty, is the item's id in decimal, or occurs in
/// the item's English, internal or Chinese name once that is in ASCII lower
/// case, the item is among the matches of any catalog that holds it.
pub proof fn law_search_finds_item(items: Seq<ItemView>, i: int, q: Seq<char>)
    requires
        0 <= i < items.len(),
        ({
            let it = items[i];
            ||| q.len() == 0
            ||| signed_decimal(it.id as int) == q
            ||| contains(ascii_lower_seq(it.name), q)
            ||| contains(ascii_lower_seq(it.internal_name), q)
            ||| (it.zh_name matches Some(z) && contains(ascii_lower_seq(z), q))
        }),
    ensures
        matching_items(items, q).contains(items[i]),
    decreases items.len(),
{
    let prev = matching_items(items.drop_last(), q);
    if i == items.len() - 1 {
        assert(item_matches(items.last(), q));
        assert(matching_items(items, q) == prev.push(items.last()));
        assert(matching_items(items, q)[prev.len() as int] == items[i]);
    } else {
        assert(items.drop_last()[i] == items[i]);
        law_search_finds_item(items.drop_last(), i, q);
        let j = choose|j: int| 0 <= j < prev.len() && prev[j] == items[i];
        if item_matches(items.last(), q) {
            assert(matching_items(items, q)[j] == items[i]);
        }
    }
}

/// Searching returns only items of the catalog that the query names: each
/// match is a catalog item whose id is the query, or one of whose names
/// (in ASCII lower case) holds it, unless the query is empty.
pub proof fn law_search_only_matches(items: Seq<ItemView>, q: Seq<char>, x: ItemView)
    requires
        matching_items(items, q).contains(x),
    ensures
        items.contains(x),
        ({
            ||| q.len() == 0
            ||| signed_decimal(x.id as int) == q
            ||| contains(ascii_lower_seq(x.name), q)
            ||| contains(ascii_lower_seq(x.internal_name), q)
            ||| (x.zh_name matches Some(z) && contains(ascii_lower_seq(z), q))
        }),
    decreases items.len(),
{
    let prev = matching_items(items.drop_last(), q);
    let j = choose|j: int| 0 <= j < matching_items(items, q).len() && matching_items(items, q)[j] == x;
    if item_matches(items.last(), q) && j == prev.len() {
        assert(items[items.len() - 1] == x);
    } else {
        assert(prev[j] == x);
        law_search_only_matches(items.drop_last(), q, x);
        let k = choose|k: int| 0 <= k < items.drop_last().len() && items.drop_last()[k] == x;
        assert(items[k] == x);
    }
}

} // verus!
