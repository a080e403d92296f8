use tap::categories::{get_categories, get_category, get_extension, make_category, CategoryTable};

#[test]
fn test_get_category_documents() {
    assert_eq!(get_category(".pdf"), "documents");
    assert_eq!(get_category(".doc"), "documents");
    assert_eq!(get_category(".docx"), "documents");
    assert_eq!(get_category(".txt"), "documents");
}

#[test]
fn test_get_category_images() {
    assert_eq!(get_category(".jpg"), "images");
    assert_eq!(get_category(".jpeg"), "images");
    assert_eq!(get_category(".png"), "images");
    assert_eq!(get_category(".gif"), "images");
}

#[test]
fn test_get_category_videos() {
    assert_eq!(get_category(".mp4"), "videos");
    assert_eq!(get_category(".avi"), "videos");
    assert_eq!(get_category(".mov"), "videos");
}

#[test]
fn test_get_category_code() {
    assert_eq!(get_category(".py"), "code");
    assert_eq!(get_category(".js"), "code");
    assert_eq!(get_category(".rs"), "code");
    assert_eq!(get_category(".java"), "code");
}

#[test]
fn test_get_category_unknown() {
    assert_eq!(get_category(".unknown"), "misc");
    assert_eq!(get_category(".xyz"), "misc");
    assert_eq!(get_category(""), "misc");
}

#[test]
fn test_get_category_case_insensitive() {
    assert_eq!(get_category(".PDF"), "documents");
    assert_eq!(get_category(".JPG"), "images");
    assert_eq!(get_category(".Mp4"), "videos");
}

#[test]
fn test_get_extension() {
    assert_eq!(get_extension("file.txt"), ".txt");
    assert_eq!(get_extension("image.JPG"), ".jpg");
    assert_eq!(get_extension("document.PDF"), ".pdf");
}

#[test]
fn test_get_extension_no_extension() {
    assert_eq!(get_extension("README"), "");
    assert_eq!(get_extension("Makefile"), "");
}

#[test]
fn test_get_extension_multiple_dots() {
    assert_eq!(get_extension("archive.tar.gz"), ".gz");
    assert_eq!(get_extension("file.backup.txt"), ".txt");
}

#[test]
fn test_get_categories_completeness() {
    let categories = get_categories();

    assert!(categories.contains_key("documents"));
    assert!(categories.contains_key("images"));
    assert!(categories.contains_key("videos"));
    assert!(categories.contains_key("audio"));
    assert!(categories.contains_key("archives"));
    assert!(categories.contains_key("code"));
    assert!(categories.contains_key("spreadsheets"));
}

#[test]
fn test_get_categories_extensions_not_empty() {
    let categories = get_categories();

    for c in categories.entries.iter() {
        assert!(!c.extensions.is_empty(), "Category '{}' has no extensions", c.name);
    }
}

fn sample_table() -> CategoryTable {
    CategoryTable {
        entries: vec![
            make_category("first", &[".a", ".shared"]),
            make_category("second", &[".b", ".shared"]),
        ],
    }
}

#[test]
fn lookup_takes_first_listing_category() {
    let t = sample_table();
    assert_eq!(t.lookup(".a"), "first");
    assert_eq!(t.lookup(".b"), "second");
    assert_eq!(t.lookup(".shared"), "first");
}

#[test]
fn lookup_unlisted_or_empty_is_misc() {
    let t = sample_table();
    assert_eq!(t.lookup(".c"), "misc");
    assert_eq!(t.lookup(""), "misc");
    assert_eq!(t.lookup("a"), "misc");
}

#[test]
fn lookup_is_exact_but_categorize_lowercases() {
    let t = sample_table();
    assert_eq!(t.lookup(".B"), "misc");
    assert_eq!(t.categorize(".B"), "second");
    assert_eq!(t.categorize(".SHARED"), t.categorize(".shared"));
}

#[test]
fn lookup_is_repeatable() {
    let t = sample_table();
    assert_eq!(t.lookup(".b"), t.lookup(".b"));
    assert_eq!(get_category(".Gz"), get_category(".gz"));
}

#[test]
fn extension_of_hidden_and_odd_names() {
    assert_eq!(get_extension(".bashrc"), "");
    assert_eq!(get_extension("dir/.hidden.TXT"), ".txt");
    assert_eq!(get_extension("/home/user/document.PDF"), ".pdf");
    assert_eq!(get_extension("trailing."), ".");
    assert_eq!(get_extension("/"), "");
    assert_eq!(get_extension("a/.."), "");
}

#[test]
fn file_names_of_odd_paths() {
    assert_eq!(get_extension("dir/file.TXT/"), ".txt");
    assert_eq!(get_extension("dir/file.txt/."), ".txt");
    assert_eq!(get_extension("."), "");
    assert_eq!(get_extension(""), "");
    assert_eq!(get_extension("a//b.Md"), ".md");
}

#[test]
fn extension_key_of_path_without_suffix_is_misc() {
    let key = get_extension("/data/README");
    assert_eq!(key, "");
    assert_eq!(get_category(&key), "misc");
}

#[test]
fn table_accessors() {
    let t = sample_table();
    assert_eq!(t.len(), 2);
    assert!(!t.is_empty());
    assert_eq!(t.get("second").unwrap().len(), 2);
    assert!(t.get("third").is_none());
    assert!(!t.contains_key("third"));
}
