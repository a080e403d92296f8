use tap::export::{free_name, plan_export, CopyScheduler, ExistingNames, ExportStats};
use tap::scanner::{FileInfo, ScanEvent, ScanStats};

fn strings(v: &[&str]) -> Vec<String> {
    v.iter().map(|s| s.to_string()).collect()
}

#[test]
fn free_name_keeps_free_names() {
    assert_eq!(free_name("a.txt", &strings(&[])), "a.txt");
    assert_eq!(free_name("a.txt", &strings(&["b.txt"])), "a.txt");
}

#[test]
fn free_name_inserts_counter_before_extension() {
    assert_eq!(free_name("a.txt", &strings(&["a.txt"])), "a_1.txt");
    assert_eq!(free_name("a.txt", &strings(&["a.txt", "a_1.txt", "a_2.txt"])), "a_3.txt");
    assert_eq!(free_name("archive.tar.gz", &strings(&["archive.tar.gz"])), "archive.tar_1.gz");
}

#[test]
fn free_name_appends_counter_without_extension() {
    assert_eq!(free_name("README", &strings(&["README"])), "README_1");
    assert_eq!(free_name(".bashrc", &strings(&[".bashrc"])), ".bashrc_1");
    assert_eq!(free_name("x.", &strings(&["x."])), "x_1");
}

#[test]
fn free_name_counts_past_nine() {
    let mut taken = strings(&["n.md"]);
    for i in 1..=10 {
        taken.push(format!("n_{}.md", i));
    }
    assert_eq!(free_name("n.md", &taken), "n_11.md");
}

#[test]
fn two_same_names_in_one_category_are_disambiguated() {
    let mut stats = ScanStats::new();
    stats.add_file(FileInfo { path: "/x/a.txt".to_string(), size: 1, category: "documents".to_string() });
    stats.add_file(FileInfo { path: "/y/a.txt".to_string(), size: 2, category: "documents".to_string() });
    let jobs = plan_export(&stats, &vec![]);
    assert_eq!(jobs.len(), 2);
    assert_eq!(jobs[0].source, "/x/a.txt");
    assert_eq!(jobs[0].dest_name, "a.txt");
    assert_eq!(jobs[1].source, "/y/a.txt");
    assert_eq!(jobs[1].dest_name, "a_1.txt");
    assert_eq!(jobs[0].category, "documents");
    assert_eq!(jobs[1].category, "documents");
}

#[test]
fn plan_avoids_names_already_in_destination() {
    let mut stats = ScanStats::new();
    stats.add_file(FileInfo { path: "/x/a.txt".to_string(), size: 1, category: "documents".to_string() });
    stats.add_file(FileInfo { path: "/x/a.png".to_string(), size: 1, category: "images".to_string() });
    let existing = vec![ExistingNames { category: "documents".to_string(), names: strings(&["a.txt", "a_1.txt"]) }];
    let jobs = plan_export(&stats, &existing);
    assert_eq!(jobs[0].dest_name, "a_2.txt");
    assert_eq!(jobs[1].dest_name, "a.png");
}

#[test]
fn same_name_in_different_categories_is_kept() {
    let mut stats = ScanStats::new();
    stats.add_file(FileInfo { path: "/x/same".to_string(), size: 1, category: "misc".to_string() });
    stats.add_file(FileInfo { path: "/y/same".to_string(), size: 1, category: "other".to_string() });
    let jobs = plan_export(&stats, &vec![]);
    assert_eq!(jobs[0].dest_name, "same");
    assert_eq!(jobs[1].dest_name, "same");
}

#[test]
fn scheduler_never_exceeds_cap() {
    let mut s = CopyScheduler::new(2, 5);
    assert_eq!(s.start(), Some(0));
    assert_eq!(s.start(), Some(1));
    assert_eq!(s.start(), None);
    assert_eq!(s.in_flight, 2);
    s.finish();
    assert_eq!(s.start(), Some(2));
    assert_eq!(s.start(), None);
    s.finish();
    s.finish();
    assert_eq!(s.start(), Some(3));
    assert_eq!(s.start(), Some(4));
    assert_eq!(s.start(), None);
    assert!(!s.is_done());
    s.finish();
    s.finish();
    assert!(s.is_done());
}

#[test]
fn scheduler_interleavings_stay_within_cap() {
    let cap = 3;
    let mut s = CopyScheduler::new(cap, 20);
    let mut max_seen = 0;
    let mut round = 0;
    while !s.is_done() {
        while let Some(_) = s.start() {
            max_seen = max_seen.max(s.in_flight);
            assert!(s.in_flight <= cap);
        }
        let finishes = 1 + round % 3;
        for _ in 0..finishes {
            if s.in_flight > 0 {
                s.finish();
            }
        }
        round += 1;
    }
    assert_eq!(max_seen, cap);
}

#[test]
fn export_stats_count_and_record_failures() {
    let mut e = ExportStats::new();
    assert_eq!((e.copied, e.failed, e.errors.len()), (0, 0, 0));
    e.record_copied();
    e.record_failed("/src/x.bin", "Permission denied (os error 13)");
    assert_eq!(e.copied, 1);
    assert_eq!(e.failed, 1);
    assert_eq!(e.errors, vec!["Failed to copy /src/x.bin: Permission denied (os error 13)".to_string()]);
}

#[test]
fn end_to_end_scan_and_export_plan() {
    let mut stats = ScanStats::new();
    stats.record(ScanEvent::File { path: "/src/doc.pdf".to_string(), size: 10 });
    stats.record(ScanEvent::File { path: "/src/img.png".to_string(), size: 20 });
    stats.record(ScanEvent::File { path: "/src/note.unknownext".to_string(), size: 5 });
    assert_eq!(stats.total_files, 3);
    assert_eq!(stats.total_size, 35);
    let mut summary = stats.get_summary();
    summary.sort();
    assert_eq!(summary, vec![
        ("documents".to_string(), 1, 10),
        ("images".to_string(), 1, 20),
        ("misc".to_string(), 1, 5),
    ]);
    let jobs = plan_export(&stats, &vec![]);
    let mut dests: Vec<String> = jobs.iter().map(|j| format!("{}/{}", j.category, j.dest_name)).collect();
    dests.sort();
    assert_eq!(dests, vec!["documents/doc.pdf", "images/img.png", "misc/note.unknownext"]);
    let mut sched = CopyScheduler::new(1, jobs.len());
    let mut stats_out = ExportStats::new();
    while !sched.is_done() {
        let started = sched.start();
        assert!(started.is_some());
        assert_eq!(sched.start(), None);
        sched.finish();
        stats_out.record_copied();
    }
    assert_eq!(stats_out.copied, 3);
    assert_eq!(stats_out.failed, 0);
}
