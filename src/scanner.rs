//! The scan inventory: files grouped by category, with running totals and
//! the non-fatal errors met on the way.

use vstd::prelude::*;
use crate::categories::{
    builtin_categories, category_in, extension_key, get_category, get_extension, string_views,
};
use crate::names::{display_name, file_name_of};
use crate::text::{chars_of, has_prefix, lower_of, starts_with_str};

verus! {

/// A file as plain values: path, size in bytes, category.
pub type FileModel = (Seq<char>, u64, Seq<char>);

/// Category groups as plain values, in the order categories were first seen.
pub type GroupsModel = Seq<(Seq<char>, Seq<FileModel>)>;

/// A file found by the scanner.
pub struct FileInfo {
    pub path: String,
    /// Size of the file in bytes.
    pub size: u64,
    /// The category the file belongs to (e.g. "images").
    pub category: String,
}

impl FileInfo {
    pub open spec fn model(&self) -> FileModel {
        (self.path@, self.size, self.category@)
    }
}

/// The files of one category, in the order they were added.
pub struct CategoryFiles {
    pub category: String,
    pub files: Vec<FileInfo>,
}

impl CategoryFiles {
    pub open spec fn model(&self) -> (Seq<char>, Seq<FileModel>) {
        (self.category@, self.files@.map_values(|f: FileInfo| f.model()))
    }
}

/// Files grouped by category; each category appears once.
pub struct FilesByCategory {
    pub groups: Vec<CategoryFiles>,
}

impl FilesByCategory {
    pub open spec fn model(&self) -> GroupsModel {
        self.groups@.map_values(|g: CategoryFiles| g.model())
    }

    /// Whether some file of this category was added.
    pub fn contains_key(&self, category: &str) -> (r: bool)
        ensures
            r == exists|i: int| 0 <= i < self.groups@.len() && #[trigger] self.groups@[i].category@ == category@,
    {
        let key = String::from_str(category);
        let n = self.groups.len();
        for i in 0..n
            invariant
                n == self.groups@.len(),
                key@ == category@,
                forall|j: int| 0 <= j < i ==> #[trigger] self.groups@[j].category@ != category@,
        {
            if self.groups[i].category == key {
                return true;
            }
        }
        false
    }

    /// The files of a category, if any was added.
    pub fn get(&self, category: &str) -> (r: Option<&Vec<FileInfo>>)
        ensures
            r is None <==> !exists|i: int| 0 <= i < self.groups@.len() && #[trigger] self.groups@[i].category@ == category@,
            r matches Some(v) ==> exists|i: int| 0 <= i < self.groups@.len() && #[trigger] self.groups@[i].category@ == category@
                && *v == self.groups@[i].files,
    {
        let key = String::from_str(category);
        let n = self.groups.len();
        for i in 0..n
            invariant
                n == self.groups@.len(),
                key@ == category@,
                forall|j: int| 0 <= j < i ==> #[trigger] self.groups@[j].category@ != category@,
        {
            if self.groups[i].category == key {
                return Some(&self.groups[i].files);
            }
        }
        None
    }

    /// The index of the group of a category.
    pub fn position(&self, category: &String) -> (r: Option<usize>)
        ensures
            r matches Some(i) ==> i < self.groups@.len() && self.groups@[i as int].category@ == category@,
            r is None ==> forall|j: int| 0 <= j < self.groups@.len() ==> #[trigger] self.groups@[j].category@ != category@,
    {
        let n = self.groups.len();
        for i in 0..n
            invariant
                n == self.groups@.len(),
                forall|j: int| 0 <= j < i ==> #[trigger] self.groups@[j].category@ != category@,
        {
            if self.groups[i].category == *category {
                return Some(i);
            }
        }
        None
    }

    /// The number of categories with files.
    pub fn len(&self) -> (r: usize)
        ensures
            r == self.groups@.len(),
    {
        self.groups.len()
    }

    /// Whether no file was added.
    pub fn is_empty(&self) -> (r: bool)
        ensures
            r == (self.groups@.len() == 0),
    {
        self.groups.len() == 0
    }
}

/// The sum of the sizes of some files.
pub open spec fn size_sum(fs: Seq<FileModel>) -> nat
    decreases fs.len(),
{
    if fs.len() == 0 {
        0
    } else {
        size_sum(fs.drop_last()) + fs.last().1 as nat
    }
}

/// The number of files over all groups.
pub open spec fn group_count(gs: GroupsModel) -> nat
    decreases gs.len(),
{
    if gs.len() == 0 {
        0
    } else {
        group_count(gs.drop_last()) + gs.last().1.len()
    }
}

/// The sum of the sizes over all groups.
pub open spec fn group_size(gs: GroupsModel) -> nat
    decreases gs.len(),
{
    if gs.len() == 0 {
        0
    } else {
        group_size(gs.drop_last()) + size_sum(gs.last().1)
    }
}

/// Scan statistics as plain values.
pub struct ScanModel {
    pub groups: GroupsModel,
    pub total_files: nat,
    pub total_size: nat,
    pub errors: Seq<Seq<char>>,
}

/// The statistics before anything is added.
pub open spec fn empty_scan() -> ScanModel {
    ScanModel { groups: Seq::empty(), total_files: 0, total_size: 0, errors: Seq::empty() }
}

/// `gs` with `f` appended to the group of its category, or with a new
/// group for it at the end.
pub open spec fn file_added(gs: GroupsModel, f: FileModel) -> GroupsModel {
    if exists|i: int| 0 <= i < gs.len() && #[trigger] gs[i].0 == f.2 {
        let i = choose|i: int| 0 <= i < gs.len() && #[trigger] gs[i].0 == f.2;
        gs.update(i, (gs[i].0, gs[i].1.push(f)))
    } else {
        gs.push((f.2, seq![f]))
    }
}

/// The statistics after one more file.
pub open spec fn added(m: ScanModel, f: FileModel) -> ScanModel {
    ScanModel {
        groups: file_added(m.groups, f),
        total_files: m.total_files + 1,
        total_size: m.total_size + f.1 as nat,
        errors: m.errors,
    }
}

/// The statistics after the files `fs`, added in order to empty ones.
pub open spec fn scanned(fs: Seq<FileModel>) -> ScanModel
    decreases fs.len(),
{
    if fs.len() == 0 {
        empty_scan()
    } else {
        added(scanned(fs.drop_last()), fs.last())
    }
}

/// Consistent statistics: one group per category, each file in the group of
/// its own category, and totals that count and sum the files.
pub open spec fn scan_wf(m: ScanModel) -> bool {
    &&& forall|i: int, j: int| 0 <= i < j < m.groups.len() ==> #[trigger] m.groups[i].0 != #[trigger] m.groups[j].0
    &&& forall|i: int, k: int|
        0 <= i < m.groups.len() && 0 <= k < m.groups[i].1.len() ==> #[trigger] m.groups[i].1[k].2 == m.groups[i].0
    &&& m.total_files == group_count(m.groups)
    &&& m.total_size == group_size(m.groups)
}

proof fn lemma_group_update(gs: GroupsModel, i: int, g: (Seq<char>, Seq<FileModel>))
    requires
        0 <= i < gs.len(),
    ensures
        group_count(gs.update(i, g)) + gs[i].1.len() == group_count(gs) + g.1.len(),
        group_size(gs.update(i, g)) + size_sum(gs[i].1) == group_size(gs) + size_sum(g.1),
    decreases gs.len(),
{
    if i == gs.len() - 1 {
        assert(gs.update(i, g).drop_last() =~= gs.drop_last());
    } else {
        assert(gs.update(i, g).drop_last() =~= gs.drop_last().update(i, g));
        lemma_group_update(gs.drop_last(), i, g);
    }
}

/// Adding a file keeps the statistics consistent.
pub proof fn lemma_added_wf(m: ScanModel, f: FileModel)
    requires
        scan_wf(m),
    ensures
        scan_wf(added(m, f)),
{
    let gs = m.groups;
    let ng = file_added(gs, f);
    if exists|i: int| 0 <= i < gs.len() && #[trigger] gs[i].0 == f.2 {
        let i = choose|i: int| 0 <= i < gs.len() && #[trigger] gs[i].0 == f.2;
        let g = (gs[i].0, gs[i].1.push(f));
        lemma_group_update(gs, i, g);
        assert(gs[i].1.push(f).drop_last() =~= gs[i].1);
        assert(size_sum(g.1) == size_sum(gs[i].1) + f.1);
        assert forall|a: int, b: int| 0 <= a < b < ng.len() implies #[trigger] ng[a].0 != #[trigger] ng[b].0 by {
            assert(ng[a].0 == gs[a].0);
            assert(ng[b].0 == gs[b].0);
        }
        assert forall|a: int, k: int| 0 <= a < ng.len() && 0 <= k < ng[a].1.len() implies #[trigger] ng[a].1[k].2 == ng[a].0 by {
            if a == i && k < gs[i].1.len() {
                assert(ng[a].1[k] == gs[i].1[k]);
            }
        }
    } else {
        let g = (f.2, seq![f]);
        assert(gs.push(g).drop_last() =~= gs);
        assert(seq![f].drop_last() =~= Seq::<FileModel>::empty());
        assert(size_sum(Seq::<FileModel>::empty()) == 0);
        assert(seq![f].last() == f);
        assert(size_sum(seq![f]) == f.1);
        assert(group_count(ng) == group_count(gs) + 1);
        assert(group_size(ng) == group_size(gs) + f.1);
        assert forall|a: int, b: int| 0 <= a < b < ng.len() implies #[trigger] ng[a].0 != #[trigger] ng[b].0 by {
            if b == gs.len() {
                assert(ng[a] == gs[a]);
            }
        }
    }
}

proof fn lemma_size_sum_remove(fs: Seq<FileModel>, k: int)
    requires
        0 <= k < fs.len(),
    ensures
        size_sum(fs) == size_sum(fs.remove(k)) + fs[k].1,
    decreases fs.len(),
{
    if k == fs.len() - 1 {
        assert(fs.remove(k) =~= fs.drop_last());
    } else {
        assert(fs.remove(k).drop_last() =~= fs.drop_last().remove(k));
        lemma_size_sum_remove(fs.drop_last(), k);
        assert(fs.remove(k).last() == fs.last());
    }
}

proof fn lemma_size_sum_reordered(a: Seq<FileModel>, b: Seq<FileModel>)
    requires
        a.to_multiset() == b.to_multiset(),
    ensures
        size_sum(a) == size_sum(b),
    decreases a.len(),
{
    broadcast use vstd::seq_lib::to_multiset_len, vstd::seq_lib::to_multiset_contains, vstd::seq_lib::to_multiset_remove;

    assert(a.len() == a.to_multiset().len());
    assert(b.len() == b.to_multiset().len());
    if a.len() > 0 {
        let x = a.last();
        assert(a.contains(x)) by {
            assert(a[a.len() - 1] == x);
        }
        assert(a.to_multiset().count(x) > 0);
        assert(b.to_multiset().count(x) > 0);
        assert(b.contains(x));
        let k = choose|k: int| 0 <= k < b.len() && b[k] == x;
        assert(a.remove(a.len() - 1) =~= a.drop_last());
        assert(a.remove(a.len() - 1).to_multiset() == a.to_multiset().remove(x));
        assert(b.remove(k).to_multiset() == b.to_multiset().remove(x));
        lemma_size_sum_reordered(a.drop_last(), b.remove(k));
        lemma_size_sum_remove(b, k);
    }
}

proof fn lemma_scanned(fs: Seq<FileModel>)
    ensures
        scan_wf(scanned(fs)),
        scanned(fs).total_files == fs.len(),
        scanned(fs).total_size == size_sum(fs),
    decreases fs.len(),
{
    if fs.len() > 0 {
        lemma_scanned(fs.drop_last());
        lemma_added_wf(scanned(fs.drop_last()), fs.last());
    } else {
        assert(group_count(Seq::<(Seq<char>, Seq<FileModel>)>::empty()) == 0);
        assert(group_size(Seq::<(Seq<char>, Seq<FileModel>)>::empty()) == 0);
    }
}

/// Scanning counts every file once and sums every size, whatever the order
/// the files come in: statistics built from any reordering of the same
/// files have the same totals.
pub proof fn law_scan_totals(fs: Seq<FileModel>, reordered: Seq<FileModel>)
    requires
        reordered.to_multiset() == fs.to_multiset(),
    ensures
        scan_wf(scanned(fs)),
        scanned(fs).total_files == fs.len(),
        scanned(fs).total_size == size_sum(fs),
        scanned(reordered).total_files == scanned(fs).total_files,
        scanned(reordered).total_size == scanned(fs).total_size,
{
    broadcast use vstd::seq_lib::to_multiset_len;

    lemma_scanned(fs);
    lemma_scanned(reordered);
    assert(fs.len() == fs.to_multiset().len());
    assert(reordered.len() == reordered.to_multiset().len());
    lemma_size_sum_reordered(fs, reordered);
}

/// A summary row as plain values: category, file count, byte total.
pub type SummaryRow = (Seq<char>, nat, nat);

/// The summary row of one group.
pub open spec fn summary_row(g: (Seq<char>, Seq<FileModel>)) -> SummaryRow {
    (g.0, g.1.len(), size_sum(g.1))
}

/// One summary row per group, in group order.
pub open spec fn summary_rows(gs: GroupsModel) -> Seq<SummaryRow> {
    gs.map_values(|g: (Seq<char>, Seq<FileModel>)| summary_row(g))
}

/// The view of an executable summary row.
pub open spec fn row_view(t: (String, usize, u64)) -> SummaryRow {
    (t.0@, t.1 as nat, t.2 as nat)
}

/// Rows in order of non-increasing file count.
pub open spec fn by_count_desc(rows: Seq<SummaryRow>) -> bool {
    forall|i: int, j: int| 0 <= i < j < rows.len() ==> #[trigger] rows[i].1 >= #[trigger] rows[j].1
}

/// How a file is listed: its file name (or `unknown`), size and category.
pub open spec fn shown_name(path: Seq<char>) -> Seq<char> {
    match file_name_of(path) {
        Some(n) => n,
        None => "unknown"@,
    }
}

/// The flat listing of all files, group after group.
pub open spec fn listing(gs: GroupsModel) -> Seq<(Seq<char>, u64, Seq<char>)>
    decreases gs.len(),
{
    if gs.len() == 0 {
        Seq::empty()
    } else {
        listing(gs.drop_last()) + gs.last().1.map_values(
            |f: FileModel| (shown_name(f.0), f.1, gs.last().0),
        )
    }
}

/// The view of an executable listing entry.
pub open spec fn entry_view(t: (String, u64, String)) -> (Seq<char>, u64, Seq<char>) {
    (t.0@, t.1, t.2@)
}

/// `rs` with `x` placed after the leading rows whose count is at least its
/// own.
pub open spec fn placed(rs: Seq<SummaryRow>, x: SummaryRow) -> Seq<SummaryRow>
    decreases rs.len(),
{
    if rs.len() == 0 {
        seq![x]
    } else if rs[0].1 >= x.1 {
        seq![rs[0]] + placed(rs.skip(1), x)
    } else {
        seq![x] + rs
    }
}

/// The rows sorted by descending count, rows of equal count in their
/// first order.
pub open spec fn by_count(rows: Seq<SummaryRow>) -> Seq<SummaryRow>
    decreases rows.len(),
{
    if rows.len() == 0 {
        Seq::empty()
    } else {
        placed(by_count(rows.drop_last()), rows.last())
    }
}

proof fn lemma_placed_at(rs: Seq<SummaryRow>, x: SummaryRow, p: int)
    requires
        0 <= p <= rs.len(),
        forall|q: int| 0 <= q < p ==> (#[trigger] rs[q]).1 >= x.1,
        p < rs.len() ==> rs[p].1 < x.1,
    ensures
        placed(rs, x) == rs.insert(p, x),
    decreases p,
{
    if p == 0 {
        assert(placed(rs, x) =~= rs.insert(0, x));
    } else {
        let rest = rs.skip(1);
        assert forall|q: int| 0 <= q < p - 1 implies (#[trigger] rest[q]).1 >= x.1 by {
            assert(rest[q] == rs[q + 1]);
        }
        if p - 1 < rest.len() {
            assert(rest[p - 1] == rs[p]);
        }
        lemma_placed_at(rest, x, p - 1);
        assert(seq![rs[0]] + rest.insert(p - 1, x) =~= rs.insert(p, x));
    }
}

proof fn lemma_size_sum_prefix(fs: Seq<FileModel>, k: int)
    requires
        0 <= k <= fs.len(),
    ensures
        size_sum(fs.take(k)) <= size_sum(fs),
    decreases fs.len(),
{
    if k < fs.len() {
        assert(fs.drop_last().take(k) =~= fs.take(k));
        lemma_size_sum_prefix(fs.drop_last(), k);
    } else {
        assert(fs.take(k) =~= fs);
    }
}

proof fn lemma_group_size_bound(gs: GroupsModel, i: int)
    requires
        0 <= i < gs.len(),
    ensures
        size_sum(gs[i].1) <= group_size(gs),
    decreases gs.len(),
{
    if i < gs.len() - 1 {
        lemma_group_size_bound(gs.drop_last(), i);
    }
}

/// The byte total of some files, when it fits the bound.
fn files_size(files: &Vec<FileInfo>, bound: u64) -> (r: u64)
    requires
        size_sum(files@.map_values(|f: FileInfo| f.model())) <= bound,
    ensures
        r == size_sum(files@.map_values(|f: FileInfo| f.model())),
{
    let ghost fs = files@.map_values(|f: FileInfo| f.model());
    let n = files.len();
    let mut acc: u64 = 0;
    assert(fs.take(0) =~= Seq::<FileModel>::empty());
    for k in 0..n
        invariant
            n == files@.len(),
            fs == files@.map_values(|f: FileInfo| f.model()),
            size_sum(fs) <= bound,
            acc == size_sum(fs.take(k as int)),
    {
        assert(fs.take(k + 1).drop_last() =~= fs.take(k as int));
        proof {
            lemma_size_sum_prefix(fs, k + 1);
        }
        acc = acc + files[k].size;
    }
    assert(fs.take(n as int) =~= fs);
    acc
}

/// Inserts a row into rows sorted by non-increasing count, after the rows
/// with a count at least as large.
fn insert_by_count(rows: &mut Vec<(String, usize, u64)>, row: (String, usize, u64))
    requires
        by_count_desc(old(rows)@.map_values(|t: (String, usize, u64)| row_view(t))),
    ensures
        by_count_desc(final(rows)@.map_values(|t: (String, usize, u64)| row_view(t))),
        final(rows)@.map_values(|t: (String, usize, u64)| row_view(t)).to_multiset()
            == old(rows)@.map_values(|t: (String, usize, u64)| row_view(t)).to_multiset().insert(row_view(row)),
        final(rows)@.map_values(|t: (String, usize, u64)| row_view(t))
            == placed(old(rows)@.map_values(|t: (String, usize, u64)| row_view(t)), row_view(row)),
{
    let ghost before = rows@.map_values(|t: (String, usize, u64)| row_view(t));
    let n = rows.len();
    let mut p: usize = 0;
    while p < n && rows[p].1 >= row.1
        invariant
            p <= n,
            n == rows@.len(),
            before == rows@.map_values(|t: (String, usize, u64)| row_view(t)),
            forall|q: int| 0 <= q < p ==> (#[trigger] rows@[q]).1 >= row.1,
        decreases n - p,
    {
        p += 1;
    }
    let ghost x = row_view(row);
    rows.insert(p, row);
    let ghost after = rows@.map_values(|t: (String, usize, u64)| row_view(t));
    assert(after =~= before.insert(p as int, x));
    proof {
        assert forall|q: int| 0 <= q < p implies (#[trigger] before[q]).1 >= x.1 by {
            assert(before[q] == row_view(old(rows)@[q]));
        }
        if p < n {
            assert(before[p as int] == row_view(old(rows)@[p as int]));
        }
        lemma_placed_at(before, x, p as int);
        vstd::seq_lib::to_multiset_insert(before, p as int, x);
        assert forall|i: int, j: int| 0 <= i < j < after.len() implies #[trigger] after[i].1 >= #[trigger] after[j].1 by {
            if i < p && j == p {
                assert(after[i] == before[i]);
            } else if i < p && j > p {
                assert(after[i] == before[i]);
                assert(after[j] == before[j - 1]);
            } else if i == p && j > p {
                assert(after[j] == before[j - 1]);
                assert(before[p as int].1 < x.1 || p == n);
                if j - 1 > p {
                    assert(before[p as int].1 >= before[j - 1].1);
                }
            } else if i > p {
                assert(after[i] == before[i - 1]);
                assert(after[j] == before[j - 1]);
            } else {
                assert(after[i] == before[i]);
                assert(after[j] == before[j]);
            }
        }
    }
}

/// Names the scan never enters or counts: hidden entries and reserved
/// system directories.
pub open spec fn reserved_name(n: Seq<char>) -> bool {
    has_prefix(n, "."@) || n == "System Volume Information"@ || n == "$RECYCLE.BIN"@ || n == "node_modules"@
}

/// An entry name matches a configured pattern: `.*` matches hidden
/// entries, any other pattern the exact name.
pub open spec fn matches_pattern(n: Seq<char>, p: Seq<char>) -> bool {
    (p == ".*"@ && has_prefix(n, "."@)) || n == p
}

/// Whether the walk prunes an entry of this name.
pub open spec fn excluded_name(n: Seq<char>, patterns: Seq<Seq<char>>) -> bool {
    reserved_name(n) || exists|i: int| 0 <= i < patterns.len() && matches_pattern(n, #[trigger] patterns[i])
}

/// Whether the walk skips an entry of this name, and all beneath it: a
/// hidden entry, a reserved system directory, or one matching a
/// configured pattern.
pub fn is_excluded(name: &str, patterns: &Vec<String>) -> (r: bool)
    ensures
        r == excluded_name(name@, string_views(patterns@)),
{
    let n = chars_of(name);
    let hidden = String::from_str(".*");
    if starts_with_str(&n, ".") {
        return true;
    }
    let s = String::from_str(name);
    if s == String::from_str("System Volume Information") || s == String::from_str("$RECYCLE.BIN")
        || s == String::from_str("node_modules") {
        return true;
    }
    let ghost ps = string_views(patterns@);
    let count = patterns.len();
    for i in 0..count
        invariant
            count == patterns@.len(),
            ps == string_views(patterns@),
            s@ == name@,
            hidden@ == ".*"@,
            !has_prefix(name@, "."@),
            forall|j: int| 0 <= j < i ==> !matches_pattern(name@, #[trigger] ps[j]),
    {
        assert(ps[i as int] == patterns@[i as int]@);
        if patterns[i] == s {
            return true;
        }
    }
    false
}

/// The record of a regular file: its category comes from the builtin table
/// by the file's extension.
pub open spec fn file_model_of(path: Seq<char>, size: u64) -> FileModel {
    (path, size, category_in(builtin_categories(), lower_of(extension_key(path))))
}

/// The message recorded for a file whose size cannot be read.
pub open spec fn read_error_text(path: Seq<char>, reason: Seq<char>) -> Seq<char> {
    "Error reading "@ + path + ": "@ + reason
}

/// The message recorded for a failed step of the walk.
pub open spec fn walk_error_text(reason: Seq<char>) -> Seq<char> {
    "Error walking directory: "@ + reason
}

/// What the walk met at one entry that the statistics record.
pub enum ScanEvent {
    /// A regular file whose size was read.
    File { path: String, size: u64 },
    /// A regular file whose size could not be read.
    Unreadable { path: String, reason: String },
    /// The walk could not go on at some entry.
    WalkFailed { reason: String },
}

/// The categorised record of a regular file.
pub fn file_info_for(path: String, size: u64) -> (r: FileInfo)
    ensures
        r.model() == file_model_of(path@, size),
{
    let ext = get_extension(path.as_str());
    let category = get_category(ext.as_str());
    FileInfo { path, size, category }
}

/// Statistics gathered by a scan.
pub struct ScanStats {
    pub files_by_category: FilesByCategory,
    pub total_files: usize,
    pub total_size: u64,
    pub errors: Vec<String>,
}

impl ScanStats {
    pub open spec fn view(&self) -> ScanModel {
        ScanModel {
            groups: self.files_by_category.model(),
            total_files: self.total_files as nat,
            total_size: self.total_size as nat,
            errors: string_views(self.errors@),
        }
    }

    /// Empty statistics.
    pub fn new() -> (r: ScanStats)
        ensures
            r.view() == empty_scan(),
            scan_wf(r.view()),
    {
        let r = ScanStats {
            files_by_category: FilesByCategory { groups: Vec::new() },
            total_files: 0,
            total_size: 0,
            errors: Vec::new(),
        };
        assert(r.view().groups =~= Seq::<(Seq<char>, Seq<FileModel>)>::empty());
        assert(r.view().errors =~= Seq::<Seq<char>>::empty());
        r
    }

    /// Adds a file: counts it, adds its size, and appends it to its
    /// category's group.
    pub fn add_file(&mut self, file_info: FileInfo)
        requires
            scan_wf(old(self).view()),
            old(self).total_files < usize::MAX,
            old(self).total_size + file_info.size <= u64::MAX,
        ensures
            final(self).view() == added(old(self).view(), file_info.model()),
            scan_wf(final(self).view()),
    {
        let ghost m = self.view();
        let ghost f = file_info.model();
        proof {
            lemma_added_wf(m, f);
        }
        self.total_files = self.total_files + 1;
        self.total_size = self.total_size + file_info.size;
        let found = self.files_by_category.position(&file_info.category);
        let ghost gs = m.groups;
        if let Some(i) = found {
            assert(gs[i as int].0 == self.files_by_category.groups@[i as int].category@);
            let ghost c = choose|c: int| 0 <= c < gs.len() && #[trigger] gs[c].0 == f.2;
            assert(c == i) by {
                if c != i {
                    assert(gs[i as int].0 != gs[c].0);
                }
            }
            let ghost old_groups = self.files_by_category.groups@;
            self.files_by_category.groups[i].files.push(file_info);
            assert(self.files_by_category.groups@[i as int].files@.map_values(|x: FileInfo| x.model())
                =~= old_groups[i as int].files@.map_values(|x: FileInfo| x.model()).push(f));
            assert(self.files_by_category.model() =~= file_added(gs, f));
        } else {
            assert forall|j: int| 0 <= j < gs.len() implies #[trigger] gs[j].0 != f.2 by {
                assert(gs[j].0 == self.files_by_category.groups@[j].category@);
            }
            let cat = file_info.category.clone();
            let mut files: Vec<FileInfo> = Vec::new();
            files.push(file_info);
            self.files_by_category.groups.push(CategoryFiles { category: cat, files });
            assert(self.files_by_category.groups@.last().model().1 =~= seq![f]);
            assert(self.files_by_category.model() =~= file_added(gs, f));
        }
    }

    /// Per category: name, file count and byte total, by descending count.
    pub fn get_summary(&self) -> (r: Vec<(String, usize, u64)>)
        requires
            scan_wf(self.view()),
        ensures
            r@.map_values(|t: (String, usize, u64)| row_view(t)).to_multiset()
                == summary_rows(self.view().groups).to_multiset(),
            by_count_desc(r@.map_values(|t: (String, usize, u64)| row_view(t))),
            r@.map_values(|t: (String, usize, u64)| row_view(t)) == by_count(summary_rows(self.view().groups)),
    {
        let ghost gs = self.view().groups;
        let mut rows: Vec<(String, usize, u64)> = Vec::new();
        let n = self.files_by_category.groups.len();
        assert(summary_rows(gs).take(0) =~= Seq::<SummaryRow>::empty());
        assert(rows@.map_values(|t: (String, usize, u64)| row_view(t)) =~= Seq::<SummaryRow>::empty());
        for i in 0..n
            invariant
                n == self.files_by_category.groups@.len(),
                gs == self.view().groups,
                scan_wf(self.view()),
                by_count_desc(rows@.map_values(|t: (String, usize, u64)| row_view(t))),
                rows@.map_values(|t: (String, usize, u64)| row_view(t)).to_multiset()
                    == summary_rows(gs).take(i as int).to_multiset(),
                rows@.map_values(|t: (String, usize, u64)| row_view(t)) == by_count(summary_rows(gs).take(i as int)),
        {
            let g = &self.files_by_category.groups[i];
            assert(gs[i as int] == g.model());
            proof {
                lemma_group_size_bound(gs, i as int);
            }
            let size = files_size(&g.files, self.total_size);
            let row = (g.category.clone(), g.files.len(), size);
            assert(row_view(row) == summary_row(gs[i as int]));
            insert_by_count(&mut rows, row);
            proof {
                assert(summary_rows(gs).take(i + 1) =~= summary_rows(gs).take(i as int).push(summary_row(gs[i as int])));
                assert(summary_rows(gs).take(i + 1).drop_last() =~= summary_rows(gs).take(i as int));
                vstd::seq_lib::to_multiset_build(summary_rows(gs).take(i as int), summary_row(gs[i as int]));
            }
        }
        assert(summary_rows(gs).take(n as int) =~= summary_rows(gs));
        rows
    }

    /// Every file as (file name, size, category), group after group.
    pub fn get_all_files(&self) -> (r: Vec<(String, u64, String)>)
        ensures
            r@.map_values(|t: (String, u64, String)| entry_view(t)) == listing(self.view().groups),
    {
        let ghost gs = self.view().groups;
        let mut out: Vec<(String, u64, String)> = Vec::new();
        let n = self.files_by_category.groups.len();
        assert(gs.take(0) =~= Seq::<(Seq<char>, Seq<FileModel>)>::empty());
        assert(out@.map_values(|t: (String, u64, String)| entry_view(t)) =~= listing(gs.take(0)));
        for i in 0..n
            invariant
                n == self.files_by_category.groups@.len(),
                gs == self.view().groups,
                out@.map_values(|t: (String, u64, String)| entry_view(t)) == listing(gs.take(i as int)),
        {
            let g = &self.files_by_category.groups[i];
            let ghost gm = g.model();
            assert(gs[i as int] == gm);
            let m = g.files.len();
            let ghost base = listing(gs.take(i as int));
            let ghost shown = gm.1.map_values(|f: FileModel| (shown_name(f.0), f.1, gm.0));
            assert(shown.take(0) =~= Seq::<(Seq<char>, u64, Seq<char>)>::empty());
            assert(base + shown.take(0) =~= base);
            for k in 0..m
                invariant
                    m == g.files@.len(),
                    gm == g.model(),
                    shown == gm.1.map_values(|f: FileModel| (shown_name(f.0), f.1, gm.0)),
                    out@.map_values(|t: (String, u64, String)| entry_view(t)) == base + shown.take(k as int),
            {
                let f = &g.files[k];
                let name = display_name(f.path.as_str());
                let entry = (name, f.size, g.category.clone());
                assert(gm.1[k as int] == f.model());
                assert(entry_view(entry) == shown[k as int]);
                let ghost prev = out@;
                out.push(entry);
                assert(out@.map_values(|t: (String, u64, String)| entry_view(t))
                    =~= prev.map_values(|t: (String, u64, String)| entry_view(t)).push(entry_view(entry)));
                assert(base + shown.take(k + 1) =~= (base + shown.take(k as int)).push(shown[k as int]));
            }
            assert(shown.take(m as int) =~= shown);
            assert(gs.take(i + 1).drop_last() =~= gs.take(i as int));
            assert(gs.take(i + 1).last() == gm);
        }
        assert(gs.take(n as int) =~= gs);
        out
    }

    /// Records one event of the walk: a file is categorised and added, a
    /// failure becomes an error message.
    pub fn record(&mut self, event: ScanEvent)
        requires
            scan_wf(old(self).view()),
            event matches ScanEvent::File { size, .. } ==> old(self).total_files < usize::MAX
                && old(self).total_size + size <= u64::MAX,
        ensures
            scan_wf(final(self).view()),
            match event {
                ScanEvent::File { path, size } => final(self).view() == added(old(self).view(), file_model_of(path@, size)),
                ScanEvent::Unreadable { path, reason } => final(self).view() == (ScanModel {
                    errors: old(self).view().errors.push(read_error_text(path@, reason@)),
                    ..old(self).view()
                }),
                ScanEvent::WalkFailed { reason } => final(self).view() == (ScanModel {
                    errors: old(self).view().errors.push(walk_error_text(reason@)),
                    ..old(self).view()
                }),
            },
    {
        match event {
            ScanEvent::File { path, size } => {
                let info = file_info_for(path, size);
                self.add_file(info);
            },
            ScanEvent::Unreadable { path, reason } => {
                let mut msg = String::from_str("Error reading ");
                msg.append(path.as_str());
                msg.append(": ");
                msg.append(reason.as_str());
                self.add_error(msg);
            },
            ScanEvent::WalkFailed { reason } => {
                let mut msg = String::from_str("Error walking directory: ");
                msg.append(reason.as_str());
                self.add_error(msg);
            },
        }
    }

    /// Records a non-fatal error met during the scan.
    pub fn add_error(&mut self, error: String)
        ensures
            final(self).view() == (ScanModel { errors: old(self).view().errors.push(error@), ..old(self).view() }),
    {
        self.errors.push(error);
        assert(string_views(self.errors@) =~= string_views(old(self).errors@).push(error@));
    }
}

} // verus!
