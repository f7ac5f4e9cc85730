//! The file browser of the CSV import: which directory entries it lists, in
//! what order, and the highlighted entry.
//!
//! Reading a directory is left to the caller, which hands the raw entries
//! over; the browser lists a `..` parent, then the sub-directories, then the
//! `.csv` files, each group in alphabetical order of the lower-cased name,
//! hiding dot-files and build/output directories.

use vstd::prelude::*;

use crate::text::{ascii_lower, ascii_lowercase, chars_of, str_eq, to_owned_string};

verus! {

/// One entry of a directory as read from the file system.
pub struct DirItem {
    pub name: String,
    pub path: String,
    pub is_dir: bool,
}

/// One row of the browser.
pub struct BrowserEntry {
    pub name: String,
    pub path: String,
    pub is_dir: bool,
}

/// The value of a browser row: (name, path, is_dir).
pub open spec fn entry_view(e: BrowserEntry) -> (Seq<char>, Seq<char>, bool) {
    (e.name@, e.path@, e.is_dir)
}

/// The value of a directory item: (name, path, is_dir).
pub open spec fn item_view(e: DirItem) -> (Seq<char>, Seq<char>, bool) {
    (e.name@, e.path@, e.is_dir)
}

/// Directories hidden from the browser (build, source and output clutter).
pub const IGNORED_DIRS: [&'static str; 4] = ["target", "src", "linkly-qr", "node_modules"];

/// Whether `name` is one of [`IGNORED_DIRS`].
pub open spec fn is_ignored_dir(name: Seq<char>) -> bool {
    name == "target"@ || name == "src"@ || name == "linkly-qr"@ || name == "node_modules"@
}

/// `str::to_lowercase`'s result (full Unicode lower-casing).
pub uninterp spec fn lowercase(s: Seq<char>) -> Seq<char>;

/// `str::to_lowercase` (std): the Unicode lower-case form of a string. Its
/// result is named; nothing else is claimed of it.
#[verifier::external_body]
fn to_lowercase(s: &str) -> (r: String)
    ensures
        r@ == lowercase(s@),
{
    s.to_lowercase()
}

/// The index of the last `.` in `s`, if any.
pub open spec fn last_dot(s: Seq<char>) -> Option<int>
    decreases s.len(),
{
    if s.len() == 0 {
        None
    } else if s.last() == '.' {
        Some(s.len() - 1)
    } else {
        last_dot(s.drop_last())
    }
}

/// `Path::extension` of a file name: the part after the last `.`, unless
/// there is no `.`, or the only `.` leads the name.
pub open spec fn extension_spec(name: Seq<char>) -> Option<Seq<char>> {
    match last_dot(name) {
        Some(p) => if p == 0 {
            None
        } else {
            Some(name.skip(p + 1))
        },
        None => None,
    }
}

/// Whether a file name has the extension `csv`, in any ASCII case.
pub open spec fn is_csv_name(name: Seq<char>) -> bool {
    match extension_spec(name) {
        Some(e) => ascii_lower(e) == "csv"@,
        None => false,
    }
}

/// Whether a directory item is listed as a directory.
pub open spec fn keeps_dir(e: (Seq<char>, Seq<char>, bool)) -> bool {
    &&& e.2
    &&& !(e.0.len() > 0 && e.0[0] == '.')
    &&& !is_ignored_dir(e.0)
}

/// Whether a directory item is listed as a file.
pub open spec fn keeps_file(e: (Seq<char>, Seq<char>, bool)) -> bool {
    &&& !e.2
    &&& !(e.0.len() > 0 && e.0[0] == '.')
    &&& is_csv_name(e.0)
}

/// Lexicographic order of strings by code point (the order of `String`).
pub open spec fn seq_lt(a: Seq<char>, b: Seq<char>) -> bool
    decreases a.len(),
{
    if a.len() == 0 {
        b.len() > 0
    } else if b.len() == 0 {
        false
    } else if a[0] != b[0] {
        a[0] < b[0]
    } else {
        seq_lt(a.drop_first(), b.drop_first())
    }
}

/// Entry `x` sorts before entry `y`: by key, then by position in the listing (a
/// stable sort).
pub open spec fn key_lt(keys: Seq<Seq<char>>, x: int, y: int) -> bool {
    seq_lt(keys[x], keys[y]) || (keys[x] == keys[y] && x < y)
}

/// `order` lists each position of `keys` once, in stable key order.
pub open spec fn is_sorted_order(keys: Seq<Seq<char>>, order: Seq<usize>) -> bool {
    &&& order.len() == keys.len()
    &&& forall|a: int| 0 <= a < order.len() ==> #[trigger] order[a] < keys.len()
    &&& forall|a: int, b: int|
        0 <= a < b < order.len() ==> key_lt(keys, #[trigger] order[a] as int, #[trigger] order[b] as int)
}

pub proof fn lemma_seq_lt_irrefl(a: Seq<char>)
    ensures
        !seq_lt(a, a),
    decreases a.len(),
{
    if a.len() > 0 {
        lemma_seq_lt_irrefl(a.drop_first());
    }
}

pub proof fn lemma_seq_lt_total(a: Seq<char>, b: Seq<char>)
    ensures
        a != b ==> seq_lt(a, b) || seq_lt(b, a),
        !(seq_lt(a, b) && seq_lt(b, a)),
    decreases a.len(),
{
    if a.len() > 0 && b.len() > 0 {
        if a[0] == b[0] {
            lemma_seq_lt_total(a.drop_first(), b.drop_first());
            if a != b {
                assert(a.drop_first() != b.drop_first()) by {
                    if a.drop_first() == b.drop_first() {
                        assert(a =~= seq![a[0]] + a.drop_first());
                        assert(b =~= seq![b[0]] + b.drop_first());
                    }
                }
            }
        }
    } else if a.len() == 0 && b.len() == 0 {
        assert(a =~= b);
    }
}

pub proof fn lemma_seq_lt_trans(a: Seq<char>, b: Seq<char>, c: Seq<char>)
    requires
        seq_lt(a, b),
        seq_lt(b, c),
    ensures
        seq_lt(a, c),
    decreases a.len(),
{
    if a.len() > 0 && b.len() > 0 && c.len() > 0 {
        if a[0] == b[0] && b[0] == c[0] {
            lemma_seq_lt_trans(a.drop_first(), b.drop_first(), c.drop_first());
        }
    }
}

proof fn lemma_key_lt_total(keys: Seq<Seq<char>>, x: int, y: int)
    requires
        x != y,
    ensures
        key_lt(keys, x, y) || key_lt(keys, y, x),
        !(key_lt(keys, x, y) && key_lt(keys, y, x)),
{
    lemma_seq_lt_total(keys[x], keys[y]);
    lemma_seq_lt_irrefl(keys[x]);
}

proof fn lemma_key_lt_trans(keys: Seq<Seq<char>>, x: int, y: int, z: int)
    requires
        key_lt(keys, x, y),
        key_lt(keys, y, z),
    ensures
        key_lt(keys, x, z),
{
    if seq_lt(keys[x], keys[y]) && seq_lt(keys[y], keys[z]) {
        lemma_seq_lt_trans(keys[x], keys[y], keys[z]);
    }
}

/// `a < b` in the order of [`seq_lt`].
fn chars_lt(a: &Vec<char>, b: &Vec<char>) -> (r: bool)
    ensures
        r == seq_lt(a@, b@),
{
    let mut i: usize = 0;
    assert(a@.skip(0) == a@ && b@.skip(0) == b@);
    while i < a.len() && i < b.len() && a[i] == b[i]
        invariant
            i <= a@.len(),
            i <= b@.len(),
            seq_lt(a@, b@) == seq_lt(a@.skip(i as int), b@.skip(i as int)),
        decreases a.len() - i,
    {
        proof {
            assert(a@.skip(i as int).drop_first() == a@.skip(i + 1));
            assert(b@.skip(i as int).drop_first() == b@.skip(i + 1));
        }
        i = i + 1;
    }
    if i == a.len() {
        i < b.len()
    } else if i == b.len() {
        false
    } else {
        a[i] < b[i]
    }
}

fn key_less(keys: &Vec<Vec<char>>, x: usize, y: usize) -> (r: bool)
    requires
        x < keys@.len(),
        y < keys@.len(),
    ensures
        r == key_lt(keys.deep_view(), x as int, y as int),
{
    assert(keys.deep_view()[x as int] == keys@[x as int]@);
    assert(keys.deep_view()[y as int] == keys@[y as int]@);
    let lt = chars_lt(&keys[x], &keys[y]);
    if lt {
        true
    } else {
        let gt = chars_lt(&keys[y], &keys[x]);
        proof {
            lemma_seq_lt_total(keys@[x as int]@, keys@[y as int]@);
        }
        !gt && x < y
    }
}

/// The positions of `keys` in stable order of the keys (an insertion sort).
fn sorted_order(keys: &Vec<Vec<char>>) -> (order: Vec<usize>)
    ensures
        is_sorted_order(keys.deep_view(), order@),
        forall|a: int, b: int| 0 <= a < b < order@.len() ==> order@[a] != order@[b],
{
    let ghost ks = keys.deep_view();
    let n = keys.len();
    let mut order: Vec<usize> = Vec::new();
    let mut i: usize = 0;
    while i < n
        invariant
            n == keys@.len(),
            ks == keys.deep_view(),
            i <= n,
            order@.len() == i,
            forall|a: int| 0 <= a < order@.len() ==> #[trigger] order@[a] < i,
            forall|a: int, b: int| 0 <= a < b < order@.len() ==> order@[a] != order@[b],
            forall|a: int, b: int|
                0 <= a < b < order@.len() ==> key_lt(ks, #[trigger] order@[a] as int, #[trigger] order@[b] as int),
        decreases n - i,
    {
        let mut p: usize = 0;
        while p < order.len() && !key_less(keys, i, order[p])
            invariant
                n == keys@.len(),
                ks == keys.deep_view(),
                i < n,
                p <= order@.len(),
                forall|a: int| 0 <= a < order@.len() ==> #[trigger] order@[a] < i,
                forall|a: int| 0 <= a < p ==> key_lt(ks, #[trigger] order@[a] as int, i as int),
            decreases order.len() - p,
        {
            proof {
                lemma_key_lt_total(ks, i as int, order@[p as int] as int);
            }
            p = p + 1;
        }
        let ghost old_order = order@;
        order.insert(p, i);
        proof {
            assert forall|a: int, b: int| 0 <= a < b < order@.len() implies key_lt(
                ks,
                #[trigger] order@[a] as int,
                #[trigger] order@[b] as int,
            ) by {
                if b < p {
                    assert(order@[a] == old_order[a] && order@[b] == old_order[b]);
                } else if b == p {
                    assert(order@[a] == old_order[a]);
                } else if a == p {
                    assert(order@[b] == old_order[b - 1]);
                    assert(key_lt(ks, i as int, old_order[p as int] as int));
                    if b - 1 > p {
                        lemma_key_lt_trans(ks, i as int, old_order[p as int] as int, old_order[b - 1] as int);
                    }
                } else if a < p {
                    assert(order@[a] == old_order[a] && order@[b] == old_order[b - 1]);
                } else {
                    assert(order@[a] == old_order[a - 1] && order@[b] == old_order[b - 1]);
                }
            }
            assert forall|a: int, b: int| 0 <= a < b < order@.len() implies order@[a] != order@[b] by {
                if a == p || b == p {
                } else if a < p && b < p {
                    assert(order@[a] == old_order[a] && order@[b] == old_order[b]);
                } else if a < p {
                    assert(order@[a] == old_order[a] && order@[b] == old_order[b - 1]);
                } else {
                    assert(order@[a] == old_order[a - 1] && order@[b] == old_order[b - 1]);
                }
            }
            assert forall|a: int| 0 <= a < order@.len() implies #[trigger] order@[a] < i + 1 by {
                if a < p {
                    assert(order@[a] == old_order[a]);
                } else if a > p {
                    assert(order@[a] == old_order[a - 1]);
                }
            }
        }
        i = i + 1;
    }
    order
}

/// The items of `items` that are listed as directories (`want_dir`) or as
/// files, in the order they were listed.
pub open spec fn kept(items: Seq<(Seq<char>, Seq<char>, bool)>, want_dir: bool) -> Seq<(Seq<char>, Seq<char>, bool)>
    decreases items.len(),
{
    if items.len() == 0 {
        seq![]
    } else {
        let prev = kept(items.drop_last(), want_dir);
        let e = items.last();
        if (want_dir && keeps_dir(e)) || (!want_dir && keeps_file(e)) {
            prev.push(e)
        } else {
            prev
        }
    }
}

/// The sort keys of listed items: their lower-cased names.
pub open spec fn sort_keys(es: Seq<(Seq<char>, Seq<char>, bool)>) -> Seq<Seq<char>> {
    es.map_values(|e: (Seq<char>, Seq<char>, bool)| lowercase(e.0))
}

/// `es` in the order `order`.
pub open spec fn permuted(es: Seq<(Seq<char>, Seq<char>, bool)>, order: Seq<usize>) -> Seq<(Seq<char>, Seq<char>, bool)> {
    order.map_values(|k: usize| es[k as int])
}

/// The `..` row for the parent directory, when there is one.
pub open spec fn parent_rows(parent: Option<Seq<char>>) -> Seq<(Seq<char>, Seq<char>, bool)> {
    match parent {
        Some(p) => seq![(".."@, p, true)],
        None => seq![],
    }
}

/// The rows listed for a directory with parent `parent` and entries
/// `items`: `..`, then the directories, then the `.csv` files, each group in
/// stable order of the lower-cased names.
pub open spec fn listing_spec(
    parent: Option<Seq<char>>,
    items: Seq<(Seq<char>, Seq<char>, bool)>,
    rows: Seq<(Seq<char>, Seq<char>, bool)>,
) -> bool {
    exists|od: Seq<usize>, of: Seq<usize>|
        {
            &&& is_sorted_order(sort_keys(kept(items, true)), od)
            &&& is_sorted_order(sort_keys(kept(items, false)), of)
            &&& rows == parent_rows(parent) + permuted(kept(items, true), od) + permuted(
                kept(items, false),
                of,
            )
        }
}

/// The highlighted row of a browser, if the highlight is on a row.
pub open spec fn selected_entry(b: FileBrowser) -> Option<BrowserEntry> {
    match b.selected {
        Some(i) => if i < b.entries@.len() {
            Some(b.entries@[i as int])
        } else {
            None
        },
        None => None,
    }
}

pub struct FileBrowser {
    pub dir: String,
    /// The parent of `dir`, when it has one.
    pub parent: Option<String>,
    pub entries: Vec<BrowserEntry>,
    /// The highlighted row.
    pub selected: Option<usize>,
}

fn starts_with_dot(v: &Vec<char>) -> (r: bool)
    ensures
        r == (v@.len() > 0 && v@[0] == '.'),
{
    v.len() > 0 && v[0] == '.'
}

fn ignored_dir(name: &str) -> (r: bool)
    ensures
        r == is_ignored_dir(name@),
{
    str_eq(name, "target") || str_eq(name, "src") || str_eq(name, "linkly-qr") || str_eq(
        name,
        "node_modules",
    )
}

fn find_last_dot(v: &Vec<char>) -> (r: Option<usize>)
    ensures
        match r {
            Some(p) => p < v@.len() && last_dot(v@) == Some(p as int),
            None => last_dot(v@) is None,
        },
{
    let mut j = v.len();
    assert(v@.take(j as int) == v@);
    while j > 0
        invariant
            j <= v@.len(),
            last_dot(v@) == last_dot(v@.take(j as int)),
        decreases j,
    {
        if v[j - 1] == '.' {
            assert(v@.take(j as int).last() == '.');
            return Some(j - 1);
        }
        assert(v@.take(j as int).drop_last() == v@.take(j - 1));
        j = j - 1;
    }
    None
}

fn csv_name(name: &str) -> (r: bool)
    ensures
        r == is_csv_name(name@),
{
    let v = chars_of(name);
    match find_last_dot(&v) {
        Some(p) => {
            if p == 0 {
                return false;
            }
            let n = v.len();
            assert(p < n);
            let ext = crate::text::string_of(v.as_slice(), p + 1, n);
            assert(ext@ == name@.skip(p + 1));
            let low = ascii_lowercase(ext.as_str());
            str_eq(low.as_str(), "csv")
        },
        None => false,
    }
}

fn copy_entry(e: &DirItem) -> (r: BrowserEntry)
    ensures
        entry_view(r) == item_view(*e),
{
    BrowserEntry { name: e.name.clone(), path: e.path.clone(), is_dir: e.is_dir }
}

/// The rows for a directory listing, as [`listing_spec`] states.
pub fn list_rows(parent: Option<String>, items: &Vec<DirItem>) -> (rows: Vec<BrowserEntry>)
    ensures
        listing_spec(
            parent.deep_view(),
            items@.map_values(|e: DirItem| item_view(e)),
            rows@.map_values(|e: BrowserEntry| entry_view(e)),
        ),
{
    let ghost iv = items@.map_values(|e: DirItem| item_view(e));
    let mut dirs: Vec<BrowserEntry> = Vec::new();
    let mut files: Vec<BrowserEntry> = Vec::new();
    let mut dir_keys: Vec<Vec<char>> = Vec::new();
    let mut file_keys: Vec<Vec<char>> = Vec::new();
    let mut i: usize = 0;
    while i < items.len()
        invariant
            i <= items@.len(),
            iv == items@.map_values(|e: DirItem| item_view(e)),
            dirs@.map_values(|e: BrowserEntry| entry_view(e)) == kept(iv.take(i as int), true),
            files@.map_values(|e: BrowserEntry| entry_view(e)) == kept(iv.take(i as int), false),
            dir_keys.deep_view() == sort_keys(kept(iv.take(i as int), true)),
            file_keys.deep_view() == sort_keys(kept(iv.take(i as int), false)),
        decreases items.len() - i,
    {
        let e = &items[i];
        let ghost ev = item_view(*e);
        assert(iv.take(i + 1).drop_last() == iv.take(i as int));
        assert(iv.take(i + 1).last() == ev);
        let name = chars_of(e.name.as_str());
        let hidden = starts_with_dot(&name);
        let ghost old_dirs = dirs@.map_values(|e: BrowserEntry| entry_view(e));
        let ghost old_files = files@.map_values(|e: BrowserEntry| entry_view(e));
        let ghost old_dk = dir_keys.deep_view();
        let ghost old_fk = file_keys.deep_view();
        if e.is_dir {
            if !hidden && !ignored_dir(e.name.as_str()) {
                let low = to_lowercase(e.name.as_str());
                let key = chars_of(low.as_str());
                dirs.push(copy_entry(e));
                dir_keys.push(key);
                assert(dirs@.map_values(|e: BrowserEntry| entry_view(e)) =~= old_dirs.push(ev));
                assert(dir_keys.deep_view() =~~= old_dk.push(lowercase(ev.0)));
            }
        } else if !hidden && csv_name(e.name.as_str()) {
            let low = to_lowercase(e.name.as_str());
            let key = chars_of(low.as_str());
            files.push(copy_entry(e));
            file_keys.push(key);
            assert(files@.map_values(|e: BrowserEntry| entry_view(e)) =~= old_files.push(ev));
            assert(file_keys.deep_view() =~~= old_fk.push(lowercase(ev.0)));
        }
        assert(sort_keys(kept(iv.take(i + 1), true)) =~= sort_keys(kept(iv.take(i + 1), true)));
        i = i + 1;
    }
    assert(iv.take(i as int) == iv);
    let od = sorted_order(&dir_keys);
    let of = sorted_order(&file_keys);
    let ghost dv = dirs@.map_values(|e: BrowserEntry| entry_view(e));
    let ghost fv = files@.map_values(|e: BrowserEntry| entry_view(e));
    let mut rows: Vec<BrowserEntry> = Vec::new();
    match &parent {
        Some(p) => {
            rows.push(BrowserEntry { name: to_owned_string(".."), path: p.clone(), is_dir: true });
        },
        None => {},
    }
    let ghost head = parent_rows(parent.deep_view());
    assert(rows@.map_values(|e: BrowserEntry| entry_view(e)) =~= head);
    let mut k: usize = 0;
    while k < od.len()
        invariant
            k <= od@.len(),
            od@.len() == dirs@.len(),
            is_sorted_order(dir_keys.deep_view(), od@),
            dv == dirs@.map_values(|e: BrowserEntry| entry_view(e)),
            rows@.map_values(|e: BrowserEntry| entry_view(e)) == head + permuted(dv, od@.take(k as int)),
        decreases od.len() - k,
    {
        let ghost prev = rows@.map_values(|e: BrowserEntry| entry_view(e));
        let idx = od[k];
        assert(od@[k as int] < dir_keys.deep_view().len());
        let d = &dirs[idx];
        rows.push(BrowserEntry { name: d.name.clone(), path: d.path.clone(), is_dir: d.is_dir });
        assert(rows@.map_values(|e: BrowserEntry| entry_view(e)) =~= prev.push(dv[idx as int]));
        assert(permuted(dv, od@.take(k + 1)) =~= permuted(dv, od@.take(k as int)).push(dv[idx as int]));
        k = k + 1;
    }
    assert(od@.take(k as int) == od@);
    let ghost mid = rows@.map_values(|e: BrowserEntry| entry_view(e));
    let mut k: usize = 0;
    assert(permuted(fv, of@.take(0)) =~= seq![]);
    while k < of.len()
        invariant
            k <= of@.len(),
            of@.len() == files@.len(),
            is_sorted_order(file_keys.deep_view(), of@),
            fv == files@.map_values(|e: BrowserEntry| entry_view(e)),
            rows@.map_values(|e: BrowserEntry| entry_view(e)) == mid + permuted(fv, of@.take(k as int)),
        decreases of.len() - k,
    {
        let ghost prev = rows@.map_values(|e: BrowserEntry| entry_view(e));
        let idx = of[k];
        assert(of@[k as int] < file_keys.deep_view().len());
        let f = &files[idx];
        rows.push(BrowserEntry { name: f.name.clone(), path: f.path.clone(), is_dir: f.is_dir });
        assert(rows@.map_values(|e: BrowserEntry| entry_view(e)) =~= prev.push(fv[idx as int]));
        assert(permuted(fv, of@.take(k + 1)) =~= permuted(fv, of@.take(k as int)).push(fv[idx as int]));
        k = k + 1;
    }
    assert(of@.take(k as int) == of@);
    assert(rows@.map_values(|e: BrowserEntry| entry_view(e)) =~= parent_rows(parent.deep_view())
        + permuted(kept(iv, true), od@) + permuted(kept(iv, false), of@));
    rows
}

impl FileBrowser {
    /// A browser on `dir` (whose parent is `parent`), listing `items`, with
    /// the first row highlighted when there is one.
    pub fn new(dir: String, parent: Option<String>, items: &Vec<DirItem>) -> (r: Self)
        ensures
            r.dir@ == dir@,
            r.parent.deep_view() == parent.deep_view(),
            listing_spec(
                parent.deep_view(),
                items@.map_values(|e: DirItem| item_view(e)),
                r.entries@.map_values(|e: BrowserEntry| entry_view(e)),
            ),
            r.selected == if r.entries@.len() == 0 { None } else { Some(0usize) },
    {
        let kept_parent = crate::models::clone_opt_string(&parent);
        let entries = list_rows(parent, items);
        let selected = if entries.len() == 0 { None } else { Some(0) };
        FileBrowser { dir, parent: kept_parent, entries, selected }
    }

    /// Rebuild the rows from a fresh listing of the current directory.
    pub fn refresh(&mut self, parent: Option<String>, items: &Vec<DirItem>)
        ensures
            final(self).dir == old(self).dir,
            final(self).parent.deep_view() == parent.deep_view(),
            listing_spec(
                parent.deep_view(),
                items@.map_values(|e: DirItem| item_view(e)),
                final(self).entries@.map_values(|e: BrowserEntry| entry_view(e)),
            ),
            final(self).selected == if final(self).entries@.len() == 0 { None } else { Some(0usize) },
    {
        self.parent = crate::models::clone_opt_string(&parent);
        let entries = list_rows(parent, items);
        self.selected = if entries.len() == 0 { None } else { Some(0) };
        self.entries = entries;
    }

    /// Go into `dir` and list it.
    pub fn open_dir(&mut self, dir: String, parent: Option<String>, items: &Vec<DirItem>)
        ensures
            final(self).dir@ == dir@,
            final(self).parent.deep_view() == parent.deep_view(),
            listing_spec(
                parent.deep_view(),
                items@.map_values(|e: DirItem| item_view(e)),
                final(self).entries@.map_values(|e: BrowserEntry| entry_view(e)),
            ),
            final(self).selected == if final(self).entries@.len() == 0 { None } else { Some(0usize) },
    {
        self.dir = dir;
        self.refresh(parent, items);
    }

    /// Highlight the previous row (staying on the first).
    pub fn move_up(&mut self)
        ensures
            *final(self) == (FileBrowser {
                selected: Some(
                    (match old(self).selected {
                        Some(i) => if i == 0 { 0 } else { i - 1 },
                        None => 0,
                    }) as usize,
                ),
                ..*old(self)
            }),
    {
        let i = match self.selected {
            Some(i) => i,
            None => 0,
        };
        self.selected = Some(if i == 0 { 0 } else { i - 1 });
    }

    /// Highlight the next row (staying on the last).
    pub fn move_down(&mut self)
        ensures
            *final(self) == (FileBrowser {
                selected: Some(
                    ({
                        let i: int = match old(self).selected {
                            Some(i) => i as int,
                            None => 0,
                        };
                        let last: int = if old(self).entries@.len() == 0 {
                            0
                        } else {
                            old(self).entries@.len() - 1
                        };
                        if i < last {
                            i + 1
                        } else {
                            last
                        }
                    }) as usize,
                ),
                ..*old(self)
            }),
    {
        let i = match self.selected {
            Some(i) => i,
            None => 0,
        };
        let n = self.entries.len();
        let last = if n == 0 { 0 } else { n - 1 };
        self.selected = Some(if i < last { i + 1 } else { last });
    }

    /// The highlighted row, if any.
    pub fn selected(&self) -> (r: Option<&BrowserEntry>)
        ensures
            match r {
                Some(e) => selected_entry(*self) == Some(*e),
                None => selected_entry(*self) is None,
            },
    {
        match self.selected {
            Some(i) => if i < self.entries.len() {
                Some(&self.entries[i])
            } else {
                None
            },
            None => None,
        }
    }
}

} // verus!
