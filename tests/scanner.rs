use tap::scanner::{is_excluded, FileInfo, ScanEvent, ScanStats};

#[test]
fn test_file_info_creation() {
    let file_info = FileInfo {
        path: "/test/file.txt".to_string(),
        size: 1024,
        category: "documents".to_string(),
    };

    assert_eq!(file_info.path, "/test/file.txt");
    assert_eq!(file_info.size, 1024);
    assert_eq!(file_info.category, "documents");
}

#[test]
fn test_scan_stats_new() {
    let stats = ScanStats::new();

    assert_eq!(stats.total_files, 0);
    assert_eq!(stats.total_size, 0);
    assert!(stats.files_by_category.is_empty());
    assert!(stats.errors.is_empty());
}

#[test]
fn test_scan_stats_add_file() {
    let mut stats = ScanStats::new();

    let file_info = FileInfo {
        path: "/test/file.txt".to_string(),
        size: 1024,
        category: "documents".to_string(),
    };

    stats.add_file(file_info);

    assert_eq!(stats.total_files, 1);
    assert_eq!(stats.total_size, 1024);
    assert!(stats.files_by_category.contains_key("documents"));
    assert_eq!(stats.files_by_category.get("documents").unwrap().len(), 1);
}

#[test]
fn test_scan_stats_add_multiple_files() {
    let mut stats = ScanStats::new();

    stats.add_file(FileInfo {
        path: "/test/file1.txt".to_string(),
        size: 1024,
        category: "documents".to_string(),
    });

    stats.add_file(FileInfo {
        path: "/test/file2.jpg".to_string(),
        size: 2048,
        category: "images".to_string(),
    });

    stats.add_file(FileInfo {
        path: "/test/file3.txt".to_string(),
        size: 512,
        category: "documents".to_string(),
    });

    assert_eq!(stats.total_files, 3);
    assert_eq!(stats.total_size, 1024 + 2048 + 512);
    assert_eq!(stats.files_by_category.get("documents").unwrap().len(), 2);
    assert_eq!(stats.files_by_category.get("images").unwrap().len(), 1);
}

#[test]
fn test_scan_stats_add_error() {
    let mut stats = ScanStats::new();

    stats.add_error("Test error".to_string());
    stats.add_error("Another error".to_string());

    assert_eq!(stats.errors.len(), 2);
    assert_eq!(stats.errors[0], "Test error");
    assert_eq!(stats.errors[1], "Another error");
}

#[test]
fn test_scan_stats_get_summary() {
    let mut stats = ScanStats::new();

    stats.add_file(FileInfo {
        path: "/test/file1.txt".to_string(),
        size: 1024,
        category: "documents".to_string(),
    });

    stats.add_file(FileInfo {
        path: "/test/file2.txt".to_string(),
        size: 512,
        category: "documents".to_string(),
    });

    stats.add_file(FileInfo {
        path: "/test/file3.jpg".to_string(),
        size: 2048,
        category: "images".to_string(),
    });

    let summary = stats.get_summary();

    assert_eq!(summary.len(), 2);

    let docs = summary.iter().find(|(cat, _, _)| cat == "documents").unwrap();
    assert_eq!(docs.1, 2);
    assert_eq!(docs.2, 1024 + 512);

    let images = summary.iter().find(|(cat, _, _)| cat == "images").unwrap();
    assert_eq!(images.1, 1);
    assert_eq!(images.2, 2048);
}

#[test]
fn test_scan_stats_get_all_files() {
    let mut stats = ScanStats::new();

    stats.add_file(FileInfo {
        path: "/test/document.txt".to_string(),
        size: 1024,
        category: "documents".to_string(),
    });

    stats.add_file(FileInfo {
        path: "/test/image.jpg".to_string(),
        size: 2048,
        category: "images".to_string(),
    });

    let all_files = stats.get_all_files();

    assert_eq!(all_files.len(), 2);

    let has_document = all_files.iter().any(|(name, _, _)| name == "document.txt");
    let has_image = all_files.iter().any(|(name, _, _)| name == "image.jpg");

    assert!(has_document);
    assert!(has_image);
}

fn file(path: &str, size: u64) -> ScanEvent {
    ScanEvent::File { path: path.to_string(), size }
}

#[test]
fn totals_count_every_file_in_any_order() {
    let paths = [("/r/a.pdf", 10u64), ("/r/b.png", 20), ("/r/c.pdf", 7), ("/r/d", 1)];
    let mut forward = ScanStats::new();
    for (p, s) in paths.iter() {
        forward.record(file(p, *s));
    }
    let mut backward = ScanStats::new();
    for (p, s) in paths.iter().rev() {
        backward.record(file(p, *s));
    }
    assert_eq!(forward.total_files, 4);
    assert_eq!(forward.total_size, 38);
    assert_eq!(backward.total_files, forward.total_files);
    assert_eq!(backward.total_size, forward.total_size);
}

#[test]
fn record_categorises_by_extension() {
    let mut stats = ScanStats::new();
    stats.record(file("/src/doc.pdf", 10));
    stats.record(file("/src/img.png", 20));
    stats.record(file("/src/note.unknownext", 5));
    let summary = stats.get_summary();
    assert_eq!(summary.len(), 3);
    for (cat, count, size) in summary.iter() {
        assert_eq!(*count, 1);
        match cat.as_str() {
            "documents" => assert_eq!(*size, 10),
            "images" => assert_eq!(*size, 20),
            "misc" => assert_eq!(*size, 5),
            other => panic!("unexpected category {}", other),
        }
    }
    assert_eq!(stats.total_files, 3);
    assert_eq!(stats.total_size, 35);
    assert_eq!(stats.files_by_category.get("misc").unwrap()[0].path, "/src/note.unknownext");
}

#[test]
fn record_turns_failures_into_messages() {
    let mut stats = ScanStats::new();
    stats.record(ScanEvent::Unreadable { path: "/r/x".to_string(), reason: "Permission denied".to_string() });
    stats.record(ScanEvent::WalkFailed { reason: "loop detected".to_string() });
    assert_eq!(stats.total_files, 0);
    assert_eq!(stats.errors, vec![
        "Error reading /r/x: Permission denied".to_string(),
        "Error walking directory: loop detected".to_string(),
    ]);
}

#[test]
fn summary_is_sorted_by_count_descending() {
    let mut stats = ScanStats::new();
    stats.record(file("/a.png", 1));
    stats.record(file("/b.pdf", 1));
    stats.record(file("/c.pdf", 1));
    stats.record(file("/d.mp3", 1));
    stats.record(file("/e.pdf", 1));
    stats.record(file("/f.mp3", 1));
    let summary = stats.get_summary();
    let counts: Vec<usize> = summary.iter().map(|r| r.1).collect();
    assert_eq!(counts, vec![3, 2, 1]);
    assert_eq!(summary[0].0, "documents");
    assert_eq!(summary[1].0, "audio");
    assert_eq!(summary[2].0, "images");
}

#[test]
fn listing_uses_file_names_and_unknown() {
    let mut stats = ScanStats::new();
    stats.add_file(FileInfo { path: "/".to_string(), size: 3, category: "misc".to_string() });
    stats.add_file(FileInfo { path: "/x/y.txt".to_string(), size: 4, category: "documents".to_string() });
    let all = stats.get_all_files();
    assert_eq!(all, vec![
        ("unknown".to_string(), 3, "misc".to_string()),
        ("y.txt".to_string(), 4, "documents".to_string()),
    ]);
}

#[test]
fn exclusion_prunes_hidden_and_reserved_names() {
    let none: Vec<String> = vec![];
    assert!(is_excluded("node_modules", &none));
    assert!(is_excluded(".git", &none));
    assert!(is_excluded("System Volume Information", &none));
    assert!(is_excluded("$RECYCLE.BIN", &none));
    assert!(!is_excluded("src", &none));
    assert!(!is_excluded("node_modules2", &none));
    let extra = vec!["target".to_string()];
    assert!(is_excluded("target", &extra));
    assert!(!is_excluded("targets", &extra));
}
