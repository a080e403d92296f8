use tap::config::{ColorConfig, Config, ExportConfig, MountConfig, ScanConfig, UIConfig, ZipConfig};

#[test]
fn test_config_default() {
    let config = Config::default();

    assert!(config.categories.contains_key("images"));
    assert!(config.categories.contains_key("documents"));
    assert!(config.categories.contains_key("videos"));
    assert!(config.categories.contains_key("audio"));

    assert_eq!(config.export.max_concurrent_copies, 10);

    assert_eq!(config.zip.enabled, true);
    assert_eq!(config.zip.compression_level, 6);
    assert_eq!(config.zip.buffer_size_kb, 256);

    assert_eq!(config.ui.max_recent_files, 10);
    assert_eq!(config.ui.color.theme, "default");

    assert!(config.scan.exclude_patterns.contains(&".*".to_string()));
    assert!(config.scan.exclude_patterns.contains(&"node_modules".to_string()));

    assert_eq!(config.mount.mount_base_dir, "/mnt");
    assert_eq!(config.mount.mount_prefix, "tap_");
}

#[test]
fn test_config_categories_comprehensive() {
    let config = Config::default();

    let expected_categories = vec![
        "images",
        "documents",
        "presentations",
        "spreadsheets",
        "databases",
        "email",
        "notes",
        "publishing",
        "diagrams",
        "project_files",
        "videos",
        "audio",
        "archives",
        "executables",
        "code",
        "config",
        "fonts",
        "three_d",
        "ebooks",
        "backups",
        "system",
        "virtual",
        "logs",
        "certificates",
        "web",
        "subtitles",
        "torrents",
    ];

    for category in expected_categories {
        assert!(config.categories.contains_key(category), "Missing category: {}", category);
    }
}

#[test]
fn test_config_image_extensions() {
    let config = Config::default();
    let images = config.categories.get("images").unwrap();

    assert!(images.contains(&".jpg".to_string()));
    assert!(images.contains(&".jpeg".to_string()));
    assert!(images.contains(&".png".to_string()));
    assert!(images.contains(&".gif".to_string()));

    assert!(images.contains(&".webp".to_string()));
    assert!(images.contains(&".heic".to_string()));

    assert!(images.contains(&".raw".to_string()));
    assert!(images.contains(&".cr2".to_string()));
}

#[test]
fn test_config_document_extensions() {
    let config = Config::default();
    let docs = config.categories.get("documents").unwrap();

    assert!(docs.contains(&".doc".to_string()));
    assert!(docs.contains(&".docx".to_string()));

    assert!(docs.contains(&".pdf".to_string()));

    assert!(docs.contains(&".txt".to_string()));
    assert!(docs.contains(&".md".to_string()));
}

#[test]
fn test_config_code_extensions() {
    let config = Config::default();
    let code = config.categories.get("code").unwrap();

    assert!(code.contains(&".py".to_string()));
    assert!(code.contains(&".js".to_string()));
    assert!(code.contains(&".rs".to_string()));
    assert!(code.contains(&".java".to_string()));
    assert!(code.contains(&".cpp".to_string()));

    assert!(code.contains(&".html".to_string()));
    assert!(code.contains(&".css".to_string()));
}

#[test]
fn test_export_config() {
    let config = ExportConfig { max_concurrent_copies: 20 };

    assert_eq!(config.max_concurrent_copies, 20);
}

#[test]
fn test_zip_config() {
    let config = ZipConfig { enabled: true, compression_level: 9, buffer_size_kb: 512 };

    assert_eq!(config.enabled, true);
    assert_eq!(config.compression_level, 9);
    assert_eq!(config.buffer_size_kb, 512);
}

#[test]
fn test_ui_config() {
    let config = UIConfig { max_recent_files: 20, color: ColorConfig { theme: "cyan".to_string() } };

    assert_eq!(config.max_recent_files, 20);
    assert_eq!(config.color.theme, "cyan");
}

#[test]
fn test_scan_config() {
    let config = ScanConfig { exclude_patterns: vec![".*".to_string(), "node_modules".to_string()] };

    assert_eq!(config.exclude_patterns.len(), 2);
    assert!(config.exclude_patterns.contains(&".*".to_string()));
}

#[test]
fn test_mount_config() {
    let config = MountConfig {
        mount_base_dir: "/mnt".to_string(),
        mount_prefix: "tap_".to_string(),
        device_patterns: vec!["/dev/sd".to_string(), "/dev/nvme".to_string()],
    };

    assert_eq!(config.mount_base_dir, "/mnt");
    assert_eq!(config.mount_prefix, "tap_");
    assert_eq!(config.device_patterns.len(), 2);
}

#[test]
fn default_config_table_order_and_size() {
    let config = Config::default();
    assert_eq!(config.categories.len(), 27);
    assert_eq!(config.categories.entries[0].name, "images");
    assert_eq!(config.categories.lookup(".html"), "code");
    assert_eq!(config.categories.lookup(".nope"), "misc");
    assert_eq!(config.mount.device_patterns.len(), 4);
}

#[test]
fn default_extensions_are_dotted_lower_case_single_suffixes() {
    let config = Config::default();
    for c in config.categories.entries.iter() {
        for e in c.extensions.iter() {
            assert!(e.starts_with('.') && e.len() > 1, "{}", e);
            assert_eq!(e, &e.to_lowercase());
            assert_eq!(e.matches('.').count(), 1, "{}", e);
        }
    }
    assert_eq!(config.categories.lookup(".appimage"), "executables");
    assert_eq!(config.categories.lookup(".r"), "code");
}
