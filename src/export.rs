//! Export planning: where each file goes in the destination tree, how many
//! copies may run at once, and what the export counted.

use vstd::prelude::*;
use crate::categories::{list_contains, string_views};
use crate::names::{extension_of_name, name_extension, name_stem, stem_of_name, display_name};
use crate::scanner::{FileModel, GroupsModel, ScanStats, shown_name};
use crate::text::{chars_of, decimal, decimal_chars, digit_char, string_from_chars};

verus! {

/// The `n`-th alternative for a file name taken in the destination: `_n`
/// goes between the stem and the extension, or at the end when there is
/// no extension.
pub open spec fn renamed(name: Seq<char>, n: nat) -> Seq<char> {
    let base = stem_of_name(name) + seq!['_'] + decimal(n);
    match extension_of_name(name) {
        Some(e) => if e.len() == 0 { base } else { base + seq!['.'] + e },
        None => base,
    }
}

/// The first alternative from the `n`-th on that is not taken (searching
/// no further than one past the number of taken names).
pub open spec fn free_from(name: Seq<char>, taken: Seq<Seq<char>>, n: nat) -> Seq<char>
    decreases taken.len() + 2 - n,
{
    if n > taken.len() + 1 {
        name
    } else if !taken.contains(renamed(name, n)) {
        renamed(name, n)
    } else {
        free_from(name, taken, n + 1)
    }
}

/// The name a file gets in a directory where `taken` are in use: its own
/// name when free, else the first free alternative.
pub open spec fn first_free(name: Seq<char>, taken: Seq<Seq<char>>) -> Seq<char> {
    if !taken.contains(name) {
        name
    } else {
        free_from(name, taken, 1)
    }
}

proof fn lemma_decimal_len(n: nat)
    ensures
        decimal(n).len() >= 1,
        n >= 10 ==> decimal(n).len() >= 2,
    decreases n,
{
    if n >= 10 {
        lemma_decimal_len(n / 10);
    }
}

proof fn lemma_decimal_injective(n: nat, m: nat)
    requires
        decimal(n) == decimal(m),
    ensures
        n == m,
    decreases n,
{
    lemma_decimal_len(n);
    lemma_decimal_len(m);
    if n >= 10 && m >= 10 {
        assert(decimal(n).last() == digit_char(n % 10));
        assert(decimal(m).last() == digit_char(m % 10));
        assert(decimal(n).drop_last() =~= decimal(n / 10));
        assert(decimal(m).drop_last() =~= decimal(m / 10));
        lemma_decimal_injective(n / 10, m / 10);
    } else if n < 10 && m < 10 {
        assert(decimal(n)[0] == digit_char(n));
        assert(decimal(m)[0] == digit_char(m));
    }
}

proof fn lemma_renamed_injective(name: Seq<char>, n: nat, m: nat)
    requires
        renamed(name, n) == renamed(name, m),
    ensures
        n == m,
{
    let s = stem_of_name(name);
    let a = s + seq!['_'] + decimal(n);
    let b = s + seq!['_'] + decimal(m);
    let tail = match extension_of_name(name) {
        Some(e) => if e.len() == 0 { Seq::<char>::empty() } else { seq!['.'] + e },
        None => Seq::<char>::empty(),
    };
    assert(renamed(name, n) =~= a + tail);
    assert(renamed(name, m) =~= b + tail);
    assert(a.len() == b.len());
    assert((a + tail).take(a.len() as int) =~= a);
    assert((b + tail).take(b.len() as int) =~= b);
    assert(a.skip(s.len() as int + 1) =~= decimal(n));
    assert(b.skip(s.len() as int + 1) =~= decimal(m));
    lemma_decimal_injective(n, m);
}

/// Among the alternatives `1..=k`, all taken, there are `k` distinct names,
/// so `k` is at most the number of taken names.
proof fn lemma_alternatives_bound(name: Seq<char>, taken: Seq<Seq<char>>, k: nat)
    requires
        forall|m: nat| 1 <= m <= k ==> taken.contains(#[trigger] renamed(name, m)),
    ensures
        k <= taken.len(),
{
    let dom = vstd::set_lib::set_int_range(1, k as int + 1);
    let f = |i: int| renamed(name, i as nat);
    vstd::set_lib::lemma_int_range(1, k as int + 1);
    assert(vstd::relations::injective_on(f, dom)) by {
        assert forall|x: int, y: int| dom.contains(x) && dom.contains(y) && #[trigger] f(x) == #[trigger] f(y) implies x == y by {
            lemma_renamed_injective(name, x as nat, y as nat);
        }
    }
    let img = dom.map(f);
    vstd::set_lib::lemma_map_size(dom, img, f);
    assert(img.subset_of(taken.to_set())) by {
        assert forall|v: Seq<char>| img.contains(v) implies taken.to_set().contains(v) by {
            let x = choose|x: int| dom.contains(x) && f(x) == v;
            assert(taken.contains(renamed(name, x as nat)));
        }
    }
    taken.lemma_cardinality_of_set();
    vstd::set_lib::lemma_len_subset(img, taken.to_set());
}

proof fn lemma_free_from_is_free(name: Seq<char>, taken: Seq<Seq<char>>, n: nat)
    requires
        1 <= n,
        forall|m: nat| 1 <= m < n ==> taken.contains(#[trigger] renamed(name, m)),
    ensures
        !taken.contains(free_from(name, taken, n)),
    decreases taken.len() + 2 - n,
{
    if n > taken.len() + 1 {
        lemma_alternatives_bound(name, taken, (n - 1) as nat);
    } else if taken.contains(renamed(name, n)) {
        lemma_free_from_is_free(name, taken, n + 1);
    }
}

/// The name chosen for a file is never one already taken.
pub proof fn lemma_first_free_is_free(name: Seq<char>, taken: Seq<Seq<char>>)
    ensures
        !taken.contains(first_free(name, taken)),
{
    if taken.contains(name) {
        lemma_free_from_is_free(name, taken, 1);
    }
}

/// The `n`-th alternative for a file name.
pub fn alternative_name(name: &Vec<char>, n: u128) -> (r: Vec<char>)
    ensures
        r@ == renamed(name@, n as nat),
{
    let mut r = name_stem(name);
    r.push('_');
    let digits = decimal_chars(n);
    let mut k: usize = 0;
    let ghost base = r@;
    while k < digits.len()
        invariant
            k <= digits@.len(),
            r@ == base + digits@.take(k as int),
        decreases digits@.len() - k,
    {
        r.push(digits[k]);
        assert(base + digits@.take(k + 1) =~= (base + digits@.take(k as int)).push(digits@[k as int]));
        k += 1;
    }
    assert(digits@.take(k as int) =~= digits@);
    match name_extension(name) {
        Some(e) => {
            if e.len() > 0 {
                r.push('.');
                let ghost mid = r@;
                let mut j: usize = 0;
                while j < e.len()
                    invariant
                        j <= e@.len(),
                        r@ == mid + e@.take(j as int),
                    decreases e@.len() - j,
                {
                    r.push(e[j]);
                    assert(mid + e@.take(j + 1) =~= (mid + e@.take(j as int)).push(e@[j as int]));
                    j += 1;
                }
                assert(e@.take(j as int) =~= e@);
                assert(r@ =~= renamed(name@, n as nat));
            }
        },
        None => {},
    }
    r
}

/// The name a file gets in a directory whose names in use are `taken`.
pub fn free_name(name: &str, taken: &Vec<String>) -> (r: String)
    ensures
        r@ == first_free(name@, string_views(taken@)),
{
    let s = String::from_str(name);
    if !list_contains(taken, &s) {
        return s;
    }
    let cs = chars_of(name);
    let ghost tv = string_views(taken@);
    let limit = taken.len() as u128 + 1;
    let mut n: u128 = 1;
    while n <= limit
        invariant
            1 <= n <= limit + 1,
            limit == tv.len() + 1,
            limit == taken.len() as u128 + 1,
            cs@ == name@,
            tv == string_views(taken@),
            tv.contains(name@),
            free_from(name@, tv, n as nat) == free_from(name@, tv, 1),
        decreases limit + 1 - n,
    {
        let cand = string_from_chars(&alternative_name(&cs, n));
        if !list_contains(taken, &cand) {
            return cand;
        }
        n += 1;
    }
    s
}

/// A copy as plain values: source path, category, name in the category's
/// directory.
pub type JobModel = (Seq<char>, Seq<char>, Seq<char>);

/// One copy of the export: the source file, the category directory it goes
/// to, and the name it gets there.
pub struct CopyJob {
    pub source: String,
    pub category: String,
    pub dest_name: String,
}

impl CopyJob {
    pub open spec fn model(&self) -> JobModel {
        (self.source@, self.category@, self.dest_name@)
    }
}

/// The names already in use in one category directory of the destination.
pub struct ExistingNames {
    pub category: String,
    pub names: Vec<String>,
}

impl ExistingNames {
    pub open spec fn model(&self) -> (Seq<char>, Seq<Seq<char>>) {
        (self.category@, string_views(self.names@))
    }
}

/// The names in use in a category's directory: those of the first listing
/// for it, or none.
pub open spec fn existing_for(ex: Seq<(Seq<char>, Seq<Seq<char>>)>, cat: Seq<char>) -> Seq<Seq<char>>
    decreases ex.len(),
{
    if ex.len() == 0 {
        Seq::empty()
    } else if ex[0].0 == cat {
        ex[0].1
    } else {
        existing_for(ex.skip(1), cat)
    }
}

/// The destination names of some copies.
pub open spec fn dests(jobs: Seq<JobModel>) -> Seq<Seq<char>> {
    jobs.map_values(|j: JobModel| j.2)
}

/// The copies for one category's files, in order: each file takes the first
/// name that neither the directory nor an earlier copy uses.
pub open spec fn group_plan(cat: Seq<char>, files: Seq<FileModel>, taken: Seq<Seq<char>>) -> Seq<JobModel>
    decreases files.len(),
{
    if files.len() == 0 {
        Seq::empty()
    } else {
        let prev = group_plan(cat, files.drop_last(), taken);
        prev.push((files.last().0, cat, first_free(shown_name(files.last().0), taken + dests(prev))))
    }
}

/// The copies of a whole export, category after category.
pub open spec fn export_plan(gs: GroupsModel, ex: Seq<(Seq<char>, Seq<Seq<char>>)>) -> Seq<JobModel>
    decreases gs.len(),
{
    if gs.len() == 0 {
        Seq::empty()
    } else {
        export_plan(gs.drop_last(), ex) + group_plan(gs.last().0, gs.last().1, existing_for(ex, gs.last().0))
    }
}

/// A copy of a list of strings.
fn copy_strings(v: &Vec<String>) -> (r: Vec<String>)
    ensures
        string_views(r@) == string_views(v@),
{
    let mut r: Vec<String> = Vec::new();
    let n = v.len();
    for i in 0..n
        invariant
            n == v@.len(),
            string_views(r@) == string_views(v@).take(i as int),
    {
        let c = v[i].clone();
        assert(c@ == v@[i as int]@);
        let ghost prev = r@;
        r.push(c);
        assert(string_views(r@) =~= string_views(prev).push(c@));
        assert(string_views(v@).take(i + 1) =~= string_views(v@).take(i as int).push(v@[i as int]@));
    }
    assert(string_views(v@).take(n as int) =~= string_views(v@));
    r
}

/// The names in use in a category's directory.
fn existing_names(existing: &Vec<ExistingNames>, cat: &String) -> (r: Vec<String>)
    ensures
        string_views(r@) == existing_for(existing@.map_values(|e: ExistingNames| e.model()), cat@),
{
    let ghost ex = existing@.map_values(|e: ExistingNames| e.model());
    let n = existing.len();
    assert(ex.skip(0) =~= ex);
    for i in 0..n
        invariant
            n == existing@.len(),
            ex == existing@.map_values(|e: ExistingNames| e.model()),
            existing_for(ex.skip(i as int), cat@) == existing_for(ex, cat@),
    {
        assert(ex.skip(i as int)[0] == existing@[i as int].model());
        assert(ex.skip(i as int).skip(1) =~= ex.skip(i + 1));
        if existing[i].category == *cat {
            return copy_strings(&existing[i].names);
        }
    }
    assert(ex.skip(n as int) =~= Seq::<(Seq<char>, Seq<Seq<char>>)>::empty());
    Vec::new()
}

/// Where each scanned file goes: one copy per file, category after
/// category, each under the first name free in its category directory,
/// given the names already there.
pub fn plan_export(stats: &ScanStats, existing: &Vec<ExistingNames>) -> (r: Vec<CopyJob>)
    ensures
        r@.map_values(|j: CopyJob| j.model())
            == export_plan(stats.view().groups, existing@.map_values(|e: ExistingNames| e.model())),
{
    let ghost gs = stats.view().groups;
    let ghost ex = existing@.map_values(|e: ExistingNames| e.model());
    let mut jobs: Vec<CopyJob> = Vec::new();
    let n = stats.files_by_category.groups.len();
    assert(gs.take(0) =~= Seq::<(Seq<char>, Seq<FileModel>)>::empty());
    assert(jobs@.map_values(|j: CopyJob| j.model()) =~= export_plan(gs.take(0), ex));
    for i in 0..n
        invariant
            n == stats.files_by_category.groups@.len(),
            gs == stats.view().groups,
            ex == existing@.map_values(|e: ExistingNames| e.model()),
            jobs@.map_values(|j: CopyJob| j.model()) == export_plan(gs.take(i as int), ex),
    {
        let g = &stats.files_by_category.groups[i];
        let ghost gm = g.model();
        assert(gs[i as int] == gm);
        let mut taken = existing_names(existing, &g.category);
        let ghost tk = existing_for(ex, gm.0);
        let ghost base = export_plan(gs.take(i as int), ex);
        let m = g.files.len();
        assert(gm.1.take(0) =~= Seq::<FileModel>::empty());
        assert(base + group_plan(gm.0, gm.1.take(0), tk) =~= base);
        assert(string_views(taken@) =~= tk + dests(group_plan(gm.0, gm.1.take(0), tk)));
        for k in 0..m
            invariant
                m == g.files@.len(),
                gm == g.model(),
                tk == existing_for(ex, gm.0),
                jobs@.map_values(|j: CopyJob| j.model()) == base + group_plan(gm.0, gm.1.take(k as int), tk),
                string_views(taken@) == tk + dests(group_plan(gm.0, gm.1.take(k as int), tk)),
        {
            let f = &g.files[k];
            assert(gm.1[k as int] == f.model());
            assert(gm.1.take(k + 1).drop_last() =~= gm.1.take(k as int));
            assert(gm.1.take(k + 1).last() == f.model());
            let name = display_name(f.path.as_str());
            let dest = free_name(name.as_str(), &taken);
            let job = CopyJob { source: f.path.clone(), category: g.category.clone(), dest_name: dest.clone() };
            let ghost prev_jobs = jobs@;
            let ghost prev_taken = taken@;
            jobs.push(job);
            taken.push(dest);
            assert(jobs@.map_values(|j: CopyJob| j.model())
                =~= prev_jobs.map_values(|j: CopyJob| j.model()).push(job.model()));
            assert(string_views(taken@) =~= string_views(prev_taken).push(dest@));
            assert(dests(group_plan(gm.0, gm.1.take(k + 1), tk))
                =~= dests(group_plan(gm.0, gm.1.take(k as int), tk)).push(dest@));
        }
        assert(gm.1.take(m as int) =~= gm.1);
        assert(gs.take(i + 1).drop_last() =~= gs.take(i as int));
        assert(gs.take(i + 1).last() == gm);
    }
    assert(gs.take(n as int) =~= gs);
    jobs
}

proof fn lemma_group_plan(cat: Seq<char>, files: Seq<FileModel>, taken: Seq<Seq<char>>)
    ensures
        group_plan(cat, files, taken).len() == files.len(),
        forall|j: int| 0 <= j < files.len() ==> (#[trigger] group_plan(cat, files, taken)[j]).1 == cat,
        forall|j: int| 0 <= j < files.len() ==> !taken.contains((#[trigger] group_plan(cat, files, taken)[j]).2),
        forall|j: int, k: int| 0 <= j < k < files.len() ==>
            (#[trigger] group_plan(cat, files, taken)[j]).2 != (#[trigger] group_plan(cat, files, taken)[k]).2,
    decreases files.len(),
{
    if files.len() > 0 {
        let prev = group_plan(cat, files.drop_last(), taken);
        lemma_group_plan(cat, files.drop_last(), taken);
        let all = taken + dests(prev);
        let d = first_free(shown_name(files.last().0), all);
        lemma_first_free_is_free(shown_name(files.last().0), all);
        let p = group_plan(cat, files, taken);
        assert(p == prev.push((files.last().0, cat, d)));
        assert forall|j: int| 0 <= j < files.len() implies !taken.contains((#[trigger] p[j]).2) by {
            if j == files.len() - 1 {
                if taken.contains(d) {
                    let w = choose|w: int| 0 <= w < taken.len() && taken[w] == d;
                    assert(all[w] == d);
                }
            }
        }
        assert forall|j: int, k: int| 0 <= j < k < files.len() implies (#[trigger] p[j]).2 != (#[trigger] p[k]).2 by {
            if k == files.len() - 1 {
                assert(all[taken.len() + j] == prev[j].2);
            }
        }
    }
}

/// Exporting never overwrites: no copy goes to a name already in its
/// category directory, and no two copies into one directory share a name.
pub proof fn law_export_never_overwrites(gs: GroupsModel, ex: Seq<(Seq<char>, Seq<Seq<char>>)>)
    requires
        forall|i: int, j: int| 0 <= i < j < gs.len() ==> #[trigger] gs[i].0 != #[trigger] gs[j].0,
    ensures
        forall|j: int| 0 <= j < export_plan(gs, ex).len() ==>
            !existing_for(ex, (#[trigger] export_plan(gs, ex)[j]).1).contains(export_plan(gs, ex)[j].2),
        forall|j: int, k: int| 0 <= j < k < export_plan(gs, ex).len()
            && (#[trigger] export_plan(gs, ex)[j]).1 == (#[trigger] export_plan(gs, ex)[k]).1 ==>
            export_plan(gs, ex)[j].2 != export_plan(gs, ex)[k].2,
    decreases gs.len(),
{
    lemma_plan_categories(gs, ex);
    if gs.len() > 0 {
        let rest = gs.drop_last();
        assert forall|i: int, j: int| 0 <= i < j < rest.len() implies #[trigger] rest[i].0 != #[trigger] rest[j].0 by {
            assert(rest[i] == gs[i] && rest[j] == gs[j]);
        }
        law_export_never_overwrites(rest, ex);
        lemma_plan_categories(rest, ex);
        let a = export_plan(rest, ex);
        let cat = gs.last().0;
        let tk = existing_for(ex, cat);
        let b = group_plan(cat, gs.last().1, tk);
        lemma_group_plan(cat, gs.last().1, tk);
        let p = export_plan(gs, ex);
        assert(p == a + b);
        assert forall|j: int| 0 <= j < p.len() implies !existing_for(ex, (#[trigger] p[j]).1).contains(p[j].2) by {
            if j >= a.len() {
                assert(p[j] == b[j - a.len()]);
            } else {
                assert(p[j] == a[j]);
            }
        }
        assert forall|j: int, k: int| 0 <= j < k < p.len() && (#[trigger] p[j]).1 == (#[trigger] p[k]).1
            implies p[j].2 != p[k].2 by {
            if j >= a.len() {
                assert(p[j] == b[j - a.len()] && p[k] == b[k - a.len()]);
            } else if k < a.len() {
                assert(p[j] == a[j] && p[k] == a[k]);
            } else {
                assert(p[j] == a[j] && p[k] == b[k - a.len()]);
                let i = choose|i: int| 0 <= i < rest.len() && a[j].1 == #[trigger] rest[i].0;
                assert(rest[i] == gs[i]);
            }
        }
    }
}

proof fn lemma_plan_categories(gs: GroupsModel, ex: Seq<(Seq<char>, Seq<Seq<char>>)>)
    ensures
        forall|j: int| 0 <= j < export_plan(gs, ex).len() ==>
            exists|i: int| 0 <= i < gs.len() && (#[trigger] export_plan(gs, ex)[j]).1 == #[trigger] gs[i].0,
    decreases gs.len(),
{
    if gs.len() > 0 {
        let rest = gs.drop_last();
        lemma_plan_categories(rest, ex);
        let a = export_plan(rest, ex);
        let cat = gs.last().0;
        let b = group_plan(cat, gs.last().1, existing_for(ex, cat));
        lemma_group_plan(cat, gs.last().1, existing_for(ex, cat));
        let p = export_plan(gs, ex);
        assert forall|j: int| 0 <= j < p.len() implies exists|i: int| 0 <= i < gs.len() && (#[trigger] p[j]).1 == #[trigger] gs[i].0 by {
            if j >= a.len() {
                assert(p[j] == b[j - a.len()]);
                assert(p[j].1 == gs[gs.len() - 1].0);
            } else {
                assert(p[j] == a[j]);
                let i = choose|i: int| 0 <= i < rest.len() && a[j].1 == #[trigger] rest[i].0;
                assert(rest[i] == gs[i]);
            }
        }
    }
}

proof fn lemma_group_plan_keeps_names(cat: Seq<char>, files: Seq<FileModel>)
    requires
        forall|j: int, k: int| 0 <= j < k < files.len() ==>
            shown_name(#[trigger] files[j].0) != shown_name(#[trigger] files[k].0),
    ensures
        group_plan(cat, files, Seq::empty()).len() == files.len(),
        forall|j: int| 0 <= j < files.len() ==> (#[trigger] group_plan(cat, files, Seq::empty())[j]).0 == files[j].0
            && group_plan(cat, files, Seq::empty())[j].2 == shown_name(files[j].0),
    decreases files.len(),
{
    if files.len() > 0 {
        let rest = files.drop_last();
        assert forall|j: int, k: int| 0 <= j < k < rest.len() implies
            shown_name(#[trigger] rest[j].0) != shown_name(#[trigger] rest[k].0) by {
            assert(rest[j] == files[j] && rest[k] == files[k]);
        }
        lemma_group_plan_keeps_names(cat, rest);
        let prev = group_plan(cat, rest, Seq::empty());
        let name = shown_name(files.last().0);
        let taken = Seq::<Seq<char>>::empty() + dests(prev);
        assert(!taken.contains(name)) by {
            if taken.contains(name) {
                let w = choose|w: int| 0 <= w < taken.len() && taken[w] == name;
                assert(taken[w] == prev[w].2);
                assert(rest[w] == files[w]);
                assert(shown_name(files[w].0) != shown_name(files[files.len() - 1].0));
            }
        }
        let p = group_plan(cat, files, Seq::empty());
        assert forall|j: int| 0 <= j < files.len() implies (#[trigger] p[j]).0 == files[j].0
            && p[j].2 == shown_name(files[j].0) by {
            if j < files.len() - 1 {
                assert(p[j] == prev[j]);
                assert(rest[j] == files[j]);
            }
        }
    }
}

/// Exporting into an empty destination keeps every file's name when no two
/// files of one category share one: each copy goes to the category
/// directory under its source's own file name.
pub proof fn law_empty_destination_keeps_names(gs: GroupsModel)
    requires
        forall|g: int, j: int, k: int| 0 <= g < gs.len() && 0 <= j < k < gs[g].1.len() ==>
            shown_name(#[trigger] gs[g].1[j].0) != shown_name(#[trigger] gs[g].1[k].0),
    ensures
        forall|j: int| 0 <= j < export_plan(gs, Seq::empty()).len() ==>
            (#[trigger] export_plan(gs, Seq::empty())[j]).2 == shown_name(export_plan(gs, Seq::empty())[j].0),
    decreases gs.len(),
{
    if gs.len() > 0 {
        let rest = gs.drop_last();
        assert forall|g: int, j: int, k: int| 0 <= g < rest.len() && 0 <= j < k < rest[g].1.len() implies
            shown_name(#[trigger] rest[g].1[j].0) != shown_name(#[trigger] rest[g].1[k].0) by {
            assert(rest[g] == gs[g]);
        }
        law_empty_destination_keeps_names(rest);
        let last = gs.last();
        assert forall|j: int, k: int| 0 <= j < k < last.1.len() implies
            shown_name(#[trigger] last.1[j].0) != shown_name(#[trigger] last.1[k].0) by {
            assert(gs[gs.len() - 1] == last);
        }
        assert(existing_for(Seq::empty(), last.0) == Seq::<Seq<char>>::empty());
        lemma_group_plan_keeps_names(last.0, last.1);
        let a = export_plan(rest, Seq::empty());
        let b = group_plan(last.0, last.1, Seq::empty());
        let p = export_plan(gs, Seq::empty());
        assert(p == a + b);
        assert forall|j: int| 0 <= j < p.len() implies (#[trigger] p[j]).2 == shown_name(p[j].0) by {
            if j >= a.len() {
                assert(p[j] == b[j - a.len()]);
            } else {
                assert(p[j] == a[j]);
            }
        }
    }
}

/// Dispatch of the copies under a cap on how many run at once.
pub struct CopyScheduler {
    /// The most copies that may run at once.
    pub cap: usize,
    /// The number of copies to run.
    pub total: usize,
    /// The next copy to start; those before it have started.
    pub next: usize,
    /// The copies started and not yet finished.
    pub in_flight: usize,
}

/// One step of the dispatch: a start when a slot is free and a copy is
/// left, or a finish when a copy runs; anything else changes nothing.
pub open spec fn dispatch_step(s: CopyScheduler, start: bool) -> CopyScheduler {
    if start {
        if s.in_flight < s.cap && s.next < s.total {
            CopyScheduler { next: (s.next + 1) as usize, in_flight: (s.in_flight + 1) as usize, ..s }
        } else {
            s
        }
    } else if s.in_flight > 0 {
        CopyScheduler { in_flight: (s.in_flight - 1) as usize, ..s }
    } else {
        s
    }
}

/// The scheduler after a sequence of starts (`true`) and finishes.
pub open spec fn dispatch_run(s: CopyScheduler, ops: Seq<bool>) -> CopyScheduler
    decreases ops.len(),
{
    if ops.len() == 0 {
        s
    } else {
        dispatch_step(dispatch_run(s, ops.drop_last()), ops.last())
    }
}

impl CopyScheduler {
    /// Copies in flight never exceed the cap, and no more copies start than
    /// there are.
    pub open spec fn wf(&self) -> bool {
        &&& 1 <= self.cap
        &&& self.in_flight <= self.cap
        &&& self.in_flight <= self.next <= self.total
    }

    /// A scheduler for `total` copies, at most `cap` at once.
    pub fn new(cap: usize, total: usize) -> (r: CopyScheduler)
        requires
            cap >= 1,
        ensures
            r.wf(),
            r == (CopyScheduler { cap, total, next: 0, in_flight: 0 }),
    {
        CopyScheduler { cap, total, next: 0, in_flight: 0 }
    }

    /// Starts the next copy if a slot is free and one is left: its index.
    pub fn start(&mut self) -> (r: Option<usize>)
        requires
            old(self).wf(),
        ensures
            final(self).wf(),
            *final(self) == dispatch_step(*old(self), true),
            r == (if old(self).in_flight < old(self).cap && old(self).next < old(self).total {
                Some(old(self).next)
            } else {
                None::<usize>
            }),
    {
        if self.in_flight < self.cap && self.next < self.total {
            let i = self.next;
            self.next = self.next + 1;
            self.in_flight = self.in_flight + 1;
            Some(i)
        } else {
            None
        }
    }

    /// Records that a running copy finished, freeing its slot.
    pub fn finish(&mut self)
        requires
            old(self).wf(),
            old(self).in_flight > 0,
        ensures
            final(self).wf(),
            *final(self) == dispatch_step(*old(self), false),
    {
        self.in_flight = self.in_flight - 1;
    }

    /// Whether every copy has started and finished.
    pub fn is_done(&self) -> (r: bool)
        ensures
            r == (self.next == self.total && self.in_flight == 0),
    {
        self.next == self.total && self.in_flight == 0
    }
}

/// Whatever the order of starts and finishes, the copies in flight never
/// exceed the cap, and never more copies start than there are.
pub proof fn law_cap_holds(s: CopyScheduler, ops: Seq<bool>)
    requires
        s.wf(),
    ensures
        dispatch_run(s, ops).wf(),
        dispatch_run(s, ops).in_flight <= s.cap,
        dispatch_run(s, ops).cap == s.cap,
    decreases ops.len(),
{
    if ops.len() > 0 {
        law_cap_holds(s, ops.drop_last());
    }
}

/// The message recorded for a failed copy.
pub open spec fn copy_error_text(source: Seq<char>, reason: Seq<char>) -> Seq<char> {
    "Failed to copy "@ + source + ": "@ + reason
}

/// What an export did: copies made, copies failed, and why they failed.
pub struct ExportStats {
    pub copied: usize,
    pub failed: usize,
    pub errors: Vec<String>,
}

impl ExportStats {
    /// Nothing copied yet.
    pub fn new() -> (r: ExportStats)
        ensures
            r.copied == 0,
            r.failed == 0,
            r.errors@.len() == 0,
    {
        ExportStats { copied: 0, failed: 0, errors: Vec::new() }
    }

    /// Counts a copy made.
    pub fn record_copied(&mut self)
        requires
            old(self).copied < usize::MAX,
        ensures
            final(self).copied == old(self).copied + 1,
            final(self).failed == old(self).failed,
            final(self).errors@ == old(self).errors@,
    {
        self.copied = self.copied + 1;
    }

    /// Counts a failed copy and records why it failed.
    pub fn record_failed(&mut self, source: &str, reason: &str)
        requires
            old(self).failed < usize::MAX,
        ensures
            final(self).copied == old(self).copied,
            final(self).failed == old(self).failed + 1,
            string_views(final(self).errors@) == string_views(old(self).errors@).push(copy_error_text(source@, reason@)),
    {
        let mut msg = String::from_str("Failed to copy ");
        msg.append(source);
        msg.append(": ");
        msg.append(reason);
        self.failed = self.failed + 1;
        self.errors.push(msg);
        assert(string_views(self.errors@) =~= string_views(old(self).errors@).push(msg@));
    }
}

} // verus!
