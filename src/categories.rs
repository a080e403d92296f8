//! The category map: which category a file extension belongs to.

use vstd::prelude::*;
use crate::names::{extension_of_name, file_name, file_name_of, name_extension, stem_of_name};
use crate::text::{chars_of, lower_of, lowercase, string_from_chars};

verus! {

/// The category of files whose extension no table lists.
pub open spec fn misc_name() -> Seq<char> {
    "misc"@
}

/// A table as plain values: each category's name with its extensions, in
/// table order.
pub type TableModel = Seq<(Seq<char>, Seq<Seq<char>>)>;

/// The category that `t` gives the extension `ext`: the first category
/// listing it, or `misc`.
pub open spec fn category_in(t: TableModel, ext: Seq<char>) -> Seq<char>
    decreases t.len(),
{
    if t.len() == 0 {
        misc_name()
    } else if t[0].1.contains(ext) {
        t[0].0
    } else {
        category_in(t.skip(1), ext)
    }
}

/// The views of a list of strings.
pub open spec fn string_views(v: Seq<String>) -> Seq<Seq<char>> {
    v.map_values(|s: String| s@)
}

/// A named category and the extensions (lower case, with the dot) it
/// holds.
pub struct Category {
    pub name: String,
    pub extensions: Vec<String>,
}

/// An ordered map from category name to extensions. Lookups take the first
/// category that lists an extension.
pub struct CategoryTable {
    pub entries: Vec<Category>,
}

impl Category {
    pub open spec fn model(&self) -> (Seq<char>, Seq<Seq<char>>) {
        (self.name@, string_views(self.extensions@))
    }
}

impl CategoryTable {
    pub open spec fn model(&self) -> TableModel {
        self.entries@.map_values(|c: Category| c.model())
    }

    /// The category for an extension given exactly (already lower case,
    /// with its dot).
    pub fn lookup(&self, ext: &str) -> (r: String)
        ensures
            r@ == category_in(self.model(), ext@),
    {
        let e = String::from_str(ext);
        let n = self.entries.len();
        let ghost m = self.model();
        let mut i: usize = 0;
        assert(m.skip(0) =~= m);
        while i < n
            invariant
                n == self.entries@.len(),
                m == self.model(),
                i <= n,
                e@ == ext@,
                category_in(m.skip(i as int), ext@) == category_in(m, ext@),
            decreases n - i,
        {
            assert(m.skip(i as int)[0] == self.entries@[i as int].model());
            assert(m.skip(i as int).skip(1) =~= m.skip(i + 1));
            if list_contains(&self.entries[i].extensions, &e) {
                return self.entries[i].name.clone();
            }
            i += 1;
        }
        String::from_str("misc")
    }

    /// The category for an extension in any case: it is lower-cased first.
    pub fn categorize(&self, ext: &str) -> (r: String)
        ensures
            r@ == category_in(self.model(), lower_of(ext@)),
            ext@.len() == 0 && dotted_table(self.model()) ==> r@ == misc_name(),
    {
        let lower = lowercase(ext);
        proof {
            if ext@.len() == 0 && dotted_table(self.model()) {
                assert(lower@ =~= Seq::<char>::empty());
                lemma_empty_key_is_misc(self.model());
            }
        }
        self.lookup(lower.as_str())
    }

    /// Whether a category of this name is in the table.
    pub fn contains_key(&self, name: &str) -> (r: bool)
        ensures
            r == exists|i: int| 0 <= i < self.entries@.len() && #[trigger] self.entries@[i].name@ == name@,
    {
        let key = String::from_str(name);
        let n = self.entries.len();
        for i in 0..n
            invariant
                n == self.entries@.len(),
                key@ == name@,
                forall|j: int| 0 <= j < i ==> #[trigger] self.entries@[j].name@ != name@,
        {
            if self.entries[i].name == key {
                return true;
            }
        }
        false
    }

    /// The extensions of the first category of this name.
    pub fn get(&self, name: &str) -> (r: Option<&Vec<String>>)
        ensures
            r is None <==> !exists|i: int| 0 <= i < self.entries@.len() && #[trigger] self.entries@[i].name@ == name@,
            r matches Some(v) ==> exists|i: int| 0 <= i < self.entries@.len() && #[trigger] self.entries@[i].name@ == name@
                && *v == self.entries@[i].extensions,
    {
        let key = String::from_str(name);
        let n = self.entries.len();
        for i in 0..n
            invariant
                n == self.entries@.len(),
                key@ == name@,
                forall|j: int| 0 <= j < i ==> #[trigger] self.entries@[j].name@ != name@,
        {
            if self.entries[i].name == key {
                return Some(&self.entries[i].extensions);
            }
        }
        None
    }

    /// The number of categories.
    pub fn len(&self) -> (r: usize)
        ensures
            r == self.entries@.len(),
    {
        self.entries.len()
    }

    /// Whether the table has no category.
    pub fn is_empty(&self) -> (r: bool)
        ensures
            r == (self.entries@.len() == 0),
    {
        self.entries.len() == 0
    }
}

/// Whether `v` holds a string equal to `s`.
pub fn list_contains(v: &Vec<String>, s: &String) -> (r: bool)
    ensures
        r == string_views(v@).contains(s@),
{
    let n = v.len();
    for k in 0..n
        invariant
            n == v@.len(),
            forall|j: int| 0 <= j < k ==> #[trigger] v@[j]@ != s@,
    {
        if v[k] == *s {
            assert(string_views(v@)[k as int] == s@);
            return true;
        }
    }
    assert forall|j: int| 0 <= j < string_views(v@).len() implies #[trigger] string_views(v@)[j] != s@ by {
        assert(string_views(v@)[j] == v@[j]@);
    }
    false
}

/// The views of a list of string slices.
pub open spec fn str_views(v: Seq<&str>) -> Seq<Seq<char>> {
    v.map_values(|s: &str| s@)
}

/// A category of the given name and extensions.
pub fn make_category(name: &str, exts: &[&str]) -> (r: Category)
    ensures
        r.model() == (name@, str_views(exts@)),
{
    let mut e: Vec<String> = Vec::new();
    let n = exts.len();
    for i in 0..n
        invariant
            n == exts@.len(),
            string_views(e@) == str_views(exts@).take(i as int),
    {
        let s = String::from_str(exts[i]);
        let ghost prev = e@;
        e.push(s);
        assert(string_views(e@) =~= string_views(prev).push(s@));
        assert(str_views(exts@).take(i + 1) =~= str_views(exts@).take(i as int).push(exts@[i as int]@));
    }
    assert(str_views(exts@).take(n as int) =~= str_views(exts@));
    Category { name: String::from_str(name), extensions: e }
}

/// The builtin table that `get_categories` returns.
pub open spec fn builtin_categories() -> TableModel {
    seq![
        ("documents"@, seq![".doc"@, ".docx"@, ".pdf"@, ".obt"@, ".rtf"@, ".txt"@, ".md"@]),
        ("spreadsheets"@, seq![".xls"@, ".xlsx"@, ".ods"@, ".csv"@]),
        ("images"@, seq![".jpg"@, ".jpeg"@, ".png"@, ".gif"@, ".bmp"@, ".tiff"@, ".tif"@, ".svg"@, ".heic"@, ".webp"@, ".ico"@]),
        ("videos"@, seq![".mp4"@, ".avi"@, ".mov"@, ".mkv"@, ".wmv"@, ".flv"@, ".webm"@, ".m4v"@, ".mpg"@, ".mpeg"@]),
        ("audio"@, seq![".mp3"@, ".wav"@, ".flac"@, ".aac"@, ".ogg"@, ".m4a"@, ".wma"@]),
        ("archives"@, seq![".zip"@, ".rar"@, ".7z"@, ".tar"@, ".gz"@, ".bz2"@, ".xz"@]),
        ("email"@, seq![".eml"@, ".msg"@, ".pst"@, ".ost"@, ".mbox"@]),
        ("databases"@, seq![".db"@, ".sqlite"@, ".sqlite3"@, ".mdb"@, ".accdb"@]),
        ("code"@, seq![".py"@, ".js"@, ".html"@, ".css"@, ".xml"@, ".json"@, ".yaml"@, ".yml"@, ".php"@, ".cpp"@, ".c"@, ".h"@, ".java"@, ".rs"@, ".go"@]),
        ("config"@, seq![".ini"@, ".conf"@, ".cfg"@, ".config"@]),
        ("logs"@, seq![".log"@]),
    ]
}

/// The builtin category table.
pub fn get_categories() -> (r: CategoryTable)
    ensures
        r.model() == builtin_categories(),
        well_formed_table(r.model()),
{
    proof {
        lemma_builtin_well_formed();
    }
    let mut entries: Vec<Category> = Vec::new();
    entries.push(make_category("documents", &[".doc", ".docx", ".pdf", ".obt", ".rtf", ".txt", ".md"]));
    entries.push(make_category("spreadsheets", &[".xls", ".xlsx", ".ods", ".csv"]));
    entries.push(make_category("images", &[".jpg", ".jpeg", ".png", ".gif", ".bmp", ".tiff", ".tif", ".svg", ".heic", ".webp", ".ico"]));
    entries.push(make_category("videos", &[".mp4", ".avi", ".mov", ".mkv", ".wmv", ".flv", ".webm", ".m4v", ".mpg", ".mpeg"]));
    entries.push(make_category("audio", &[".mp3", ".wav", ".flac", ".aac", ".ogg", ".m4a", ".wma"]));
    entries.push(make_category("archives", &[".zip", ".rar", ".7z", ".tar", ".gz", ".bz2", ".xz"]));
    entries.push(make_category("email", &[".eml", ".msg", ".pst", ".ost", ".mbox"]));
    entries.push(make_category("databases", &[".db", ".sqlite", ".sqlite3", ".mdb", ".accdb"]));
    entries.push(make_category("code", &[".py", ".js", ".html", ".css", ".xml", ".json", ".yaml", ".yml", ".php", ".cpp", ".c", ".h", ".java", ".rs", ".go"]));
    entries.push(make_category("config", &[".ini", ".conf", ".cfg", ".config"]));
    entries.push(make_category("logs", &[".log"]));
    let r = CategoryTable { entries };
    assert(r.model() =~~= builtin_categories());
    r
}

/// The builtin category of an extension, in any case.
pub fn get_category(extension: &str) -> (r: String)
    ensures
        r@ == category_in(builtin_categories(), lower_of(extension@)),
        extension@.len() == 0 ==> r@ == misc_name(),
{
    proof {
        lemma_builtin_well_formed();
        lemma_well_formed_dotted(builtin_categories());
    }
    get_categories().categorize(extension)
}

/// The key under which a path is categorised: a dot and the lower-cased
/// extension of its file name, or empty when it has none.
pub open spec fn extension_key(path: Seq<char>) -> Seq<char> {
    match file_name_of(path) {
        Some(n) => match extension_of_name(n) {
            Some(e) => seq!['.'] + lower_of(e),
            None => Seq::<char>::empty(),
        },
        None => Seq::<char>::empty(),
    }
}

/// The lower-cased extension of a path's file name with a leading dot, or
/// an empty string.
pub fn get_extension(path: &str) -> (r: String)
    ensures
        r@ == extension_key(path@),
{
    match file_name(path) {
        None => String::new(),
        Some(n) => {
            let cs = chars_of(n.as_str());
            match name_extension(&cs) {
                None => String::new(),
                Some(e) => {
                    let es = string_from_chars(&e);
                    let lower = lowercase(es.as_str());
                    let mut r = String::from_str(".");
                    proof {
                        reveal_strlit(".");
                    }
                    r.append(lower.as_str());
                    r
                },
            }
        },
    }
}

/// Every extension in the table has its leading dot.
pub open spec fn dotted_table(t: TableModel) -> bool {
    forall|i: int, k: int|
        0 <= i < t.len() && 0 <= k < t[i].1.len() ==> #[trigger] t[i].1[k].len() > 0 && t[i].1[k][0] == '.'
}

/// An extension that some category lists gets the first category that
/// lists it.
pub proof fn law_listed_extension(t: TableModel, ext: Seq<char>)
    requires
        exists|i: int| 0 <= i < t.len() && #[trigger] t[i].1.contains(ext),
    ensures
        exists|i: int|
            0 <= i < t.len() && #[trigger] t[i].1.contains(ext) && category_in(t, ext) == t[i].0
                && forall|j: int| 0 <= j < i ==> !(#[trigger] t[j].1.contains(ext)),
    decreases t.len(),
{
    if t[0].1.contains(ext) {
        assert(category_in(t, ext) == t[0].0);
    } else {
        let i = choose|i: int| 0 <= i < t.len() && #[trigger] t[i].1.contains(ext);
        assert(t.skip(1)[i - 1] == t[i]);
        law_listed_extension(t.skip(1), ext);
        let k = choose|k: int|
            0 <= k < t.skip(1).len() && #[trigger] t.skip(1)[k].1.contains(ext) && category_in(t.skip(1), ext)
                == t.skip(1)[k].0 && forall|j: int| 0 <= j < k ==> !(#[trigger] t.skip(1)[j].1.contains(ext));
        assert(t[k + 1] == t.skip(1)[k]);
        assert forall|j: int| 0 <= j < k + 1 implies !(#[trigger] t[j].1.contains(ext)) by {
            if j > 0 {
                assert(t[j] == t.skip(1)[j - 1]);
            }
        }
    }
}

/// An extension that no category lists falls in `misc`.
pub proof fn law_unlisted_extension(t: TableModel, ext: Seq<char>)
    requires
        forall|i: int| 0 <= i < t.len() ==> !(#[trigger] t[i].1.contains(ext)),
    ensures
        category_in(t, ext) == misc_name(),
    decreases t.len(),
{
    if t.len() > 0 {
        assert forall|i: int| 0 <= i < t.skip(1).len() implies !(#[trigger] t.skip(1)[i].1.contains(ext)) by {
            assert(t.skip(1)[i] == t[i + 1]);
        }
        law_unlisted_extension(t.skip(1), ext);
    }
}

/// Categorising ignores case: extensions that lower-case alike get the
/// same category.
pub proof fn law_categorize_ignores_case(t: TableModel, a: Seq<char>, b: Seq<char>)
    requires
        lower_of(a) == lower_of(b),
    ensures
        category_in(t, lower_of(a)) == category_in(t, lower_of(b)),
{
}

/// The extension of a file name is only what follows its final dot: it
/// holds no dot, and the name is the stem, a dot and the extension.
pub proof fn law_extension_is_final_suffix(n: Seq<char>)
    requires
        extension_of_name(n) is Some,
    ensures
        !extension_of_name(n)->0.contains('.'),
        n == stem_of_name(n) + seq!['.'] + extension_of_name(n)->0,
{
    crate::names::lemma_last_dot_bounds(n);
    let i = crate::names::last_dot(n);
    let e = n.skip(i + 1);
    assert forall|j: int| 0 <= j < e.len() implies e[j] != '.' by {
        assert(e[j] == n[i + 1 + j]);
    }
    assert(n =~= n.take(i) + seq!['.'] + e);
}

/// In a table of dotted extensions the empty key is listed nowhere.
pub proof fn lemma_empty_key_is_misc(t: TableModel)
    requires
        dotted_table(t),
    ensures
        category_in(t, Seq::<char>::empty()) == misc_name(),
{
    assert forall|i: int| 0 <= i < t.len() implies !(#[trigger] t[i].1.contains(Seq::<char>::empty())) by {
        if t[i].1.contains(Seq::<char>::empty()) {
            let k = choose|k: int| 0 <= k < t[i].1.len() && t[i].1[k] == Seq::<char>::empty();
            assert(t[i].1[k].len() > 0);
        }
    }
    law_unlisted_extension(t, Seq::<char>::empty());
}

/// A file name without an extension has no dot but perhaps a leading one,
/// and its empty key falls in `misc` in a table of dotted extensions.
pub proof fn law_no_extension(t: TableModel, n: Seq<char>)
    requires
        extension_of_name(n) is None,
        dotted_table(t),
    ensures
        forall|j: int| 0 < j < n.len() ==> n[j] != '.',
        category_in(t, Seq::<char>::empty()) == misc_name(),
{
    crate::names::lemma_last_dot_bounds(n);
    lemma_empty_key_is_misc(t);
}

/// An extension as a table holds it: a dot, then at least one character,
/// none of them a dot or an ASCII capital letter.
pub open spec fn well_formed_ext(e: Seq<char>) -> bool {
    &&& e.len() >= 2
    &&& e[0] == '.'
    &&& forall|k: int| 1 <= k < e.len() ==> #[trigger] e[k] != '.' && !('A' <= e[k] && e[k] <= 'Z')
}

/// Every extension of the table is well formed.
pub open spec fn well_formed_table(t: TableModel) -> bool {
    forall|i: int, k: int| 0 <= i < t.len() && 0 <= k < t[i].1.len() ==> well_formed_ext(#[trigger] t[i].1[k])
}

/// A well-formed table has its dots.
pub proof fn lemma_well_formed_dotted(t: TableModel)
    requires
        well_formed_table(t),
    ensures
        dotted_table(t),
{
    assert forall|i: int, k: int| 0 <= i < t.len() && 0 <= k < t[i].1.len() implies
        #[trigger] t[i].1[k].len() > 0 && t[i].1[k][0] == '.' by {
        assert(well_formed_ext(t[i].1[k]));
    }
}

/// Every extension in the builtin table is well formed.
pub proof fn lemma_builtin_well_formed()
    ensures
        well_formed_table(builtin_categories()),
{
    reveal_strlit(".doc");
    reveal_strlit(".docx");
    reveal_strlit(".pdf");
    reveal_strlit(".obt");
    reveal_strlit(".rtf");
    reveal_strlit(".txt");
    reveal_strlit(".md");
    reveal_strlit(".xls");
    reveal_strlit(".xlsx");
    reveal_strlit(".ods");
    reveal_strlit(".csv");
    reveal_strlit(".jpg");
    reveal_strlit(".jpeg");
    reveal_strlit(".png");
    reveal_strlit(".gif");
    reveal_strlit(".bmp");
    reveal_strlit(".tiff");
    reveal_strlit(".tif");
    reveal_strlit(".svg");
    reveal_strlit(".heic");
    reveal_strlit(".webp");
    reveal_strlit(".ico");
    reveal_strlit(".mp4");
    reveal_strlit(".avi");
    reveal_strlit(".mov");
    reveal_strlit(".mkv");
    reveal_strlit(".wmv");
    reveal_strlit(".flv");
    reveal_strlit(".webm");
    reveal_strlit(".m4v");
    reveal_strlit(".mpg");
    reveal_strlit(".mpeg");
    reveal_strlit(".mp3");
    reveal_strlit(".wav");
    reveal_strlit(".flac");
    reveal_strlit(".aac");
    reveal_strlit(".ogg");
    reveal_strlit(".m4a");
    reveal_strlit(".wma");
    reveal_strlit(".zip");
    reveal_strlit(".rar");
    reveal_strlit(".7z");
    reveal_strlit(".tar");
    reveal_strlit(".gz");
    reveal_strlit(".bz2");
    reveal_strlit(".xz");
    reveal_strlit(".eml");
    reveal_strlit(".msg");
    reveal_strlit(".pst");
    reveal_strlit(".ost");
    reveal_strlit(".mbox");
    reveal_strlit(".db");
    reveal_strlit(".sqlite");
    reveal_strlit(".sqlite3");
    reveal_strlit(".mdb");
    reveal_strlit(".accdb");
    reveal_strlit(".py");
    reveal_strlit(".js");
    reveal_strlit(".html");
    reveal_strlit(".css");
    reveal_strlit(".xml");
    reveal_strlit(".json");
    reveal_strlit(".yaml");
    reveal_strlit(".yml");
    reveal_strlit(".php");
    reveal_strlit(".cpp");
    reveal_strlit(".c");
    reveal_strlit(".h");
    reveal_strlit(".java");
    reveal_strlit(".rs");
    reveal_strlit(".go");
    reveal_strlit(".ini");
    reveal_strlit(".conf");
    reveal_strlit(".cfg");
    reveal_strlit(".config");
    reveal_strlit(".log");
}

} // verus!
