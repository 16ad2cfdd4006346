use project_safetynet::archive::{create_archive, plan_archive, tar_entry_name, join_path_text, Archive};
use project_safetynet::cli::{config_path, has_flag, flag_argument_value};
use project_safetynet::compression_level::CompressionLevel;
use project_safetynet::config::{select_jobs, ConfigValueError, Item, Nickname, WorkingPath};
use project_safetynet::file_filter::{
    build_regex_registry, identify_path, is_valid, DirectoryWalk, FilterOutcome, PathType, RegexRegistry,
};
use project_safetynet::progress_bar::ProgressBar;

fn strings(v: &[&str]) -> Vec<String> {
    v.iter().map(|s| s.to_string()).collect()
}

fn registry(rules: &[&str]) -> RegexRegistry {
    match build_regex_registry(&Some(strings(rules)), vec![]) {
        Ok(r) => r,
        Err(e) => panic!("rules did not compile: {}", e.0),
    }
}

fn item(nick: &str, input: &str) -> Item {
    Item {
        nickname: match Nickname::new(nick) {
            Ok(n) => n,
            Err(_) => panic!("bad nickname"),
        },
        input_path: match WorkingPath::new(input) {
            Ok(p) => p,
            Err(_) => panic!("missing path"),
        },
        output_directory: None,
        compression_level: None,
        exclude: None,
        include_rules: None,
    }
}

// ---- command line ----

#[test]
fn config_path_defaults_to_config_json() {
    assert_eq!(config_path(&strings(&["prog", "--no-logo"])), "config.json");
    assert_eq!(config_path(&[]), "config.json");
}

#[test]
fn config_path_takes_value_after_equals() {
    assert_eq!(config_path(&strings(&["prog", "--config-path=/etc/jobs.json"])), "/etc/jobs.json");
}

#[test]
fn config_path_last_flag_wins() {
    let args = strings(&["prog", "--config-path=a.json", "--help", "--config-path=b.json"]);
    assert_eq!(config_path(&args), "b.json");
}

#[test]
fn config_path_keeps_later_equals_signs() {
    assert_eq!(config_path(&strings(&["--config-path=a=b==c"])), "a=b==c");
}

#[test]
fn config_path_keeps_leading_equals_signs() {
    assert_eq!(config_path(&strings(&["--config-path==x"])), "=x");
    assert_eq!(config_path(&strings(&["--config-path===x=y"])), "==x=y");
    assert_eq!(config_path(&strings(&["--config-path=="])), "=");
    assert_eq!(config_path(&strings(&["prog", "--config-path==x.json"])), "=x.json");
}

#[test]
fn config_path_without_equals_is_empty() {
    assert_eq!(config_path(&strings(&["--config-path"])), "");
    assert_eq!(flag_argument_value("--config-path"), "");
}

#[test]
fn config_path_prefix_is_enough() {
    assert_eq!(config_path(&strings(&["--config-pathology=z.json"])), "z.json");
    assert_eq!(config_path(&strings(&["-config-path=z.json"])), "config.json");
}

#[test]
fn has_flag_finds_exact_arguments() {
    let args = strings(&["prog", "--no-logo", "--helpme"]);
    assert!(has_flag(&args, "--no-logo"));
    assert!(!has_flag(&args, "--help"));
}

// ---- configuration values ----

#[test]
fn nickname_accepts_lowercase_and_digits() {
    let n = Nickname::new("docs2024");
    assert!(matches!(&n, Ok(n) if n.as_str() == "docs2024"));
}

#[test]
fn nickname_refuses_other_characters() {
    for bad in ["", "Docs", "my docs", "a|b", "doc-s", "é", "x_y", "١٢"] {
        match Nickname::new(bad) {
            Err(ConfigValueError::InvalidNickname(s)) => assert_eq!(s, bad),
            _ => panic!("accepted {:?}", bad),
        }
    }
}

#[test]
fn nickname_error_message() {
    let e = Nickname::new("Bad").err().unwrap();
    assert_eq!(e.message(), "Invalid nickname 'Bad': must contain only lowercase letters and digits");
    assert_eq!(e.into_error().0, "Invalid nickname 'Bad': must contain only lowercase letters and digits");
}

#[test]
fn working_path_accepts_existing_paths() {
    let p = WorkingPath::new("src");
    assert!(matches!(&p, Ok(p) if p.as_str() == "src"));
}

#[test]
fn working_path_refuses_missing_paths() {
    match WorkingPath::new("no/such/dir/anywhere") {
        Err(e) => assert_eq!(e.message(), "Invalid path 'no/such/dir/anywhere': must exists on filesystem"),
        Ok(_) => panic!("accepted a missing path"),
    }
}

#[test]
fn working_path_new_asks_about_its_own_path() {
    assert!(matches!(WorkingPath::new("tests"), Ok(p) if p.as_str() == "tests"));
    assert!(matches!(WorkingPath::new("tests/no-such-file"),
        Err(ConfigValueError::InvalidWorkingPath(s)) if s == "tests/no-such-file"));
}

#[test]
fn compression_names() {
    assert_eq!(CompressionLevel::from_name("fast"), Some(CompressionLevel::Fast));
    assert_eq!(CompressionLevel::from_name("best"), Some(CompressionLevel::Best));
    assert_eq!(CompressionLevel::from_name("Best"), None);
    assert_eq!(CompressionLevel::from_name("fastest"), None);
}

#[test]
fn compression_gzip_levels() {
    assert_eq!(CompressionLevel::Fast.gzip_level(), 1);
    assert_eq!(CompressionLevel::Best.gzip_level(), 9);
}

#[test]
fn select_jobs_keeps_valid_entries_in_order() {
    let entries = vec![
        Ok(item("one", ".")),
        Err("bad entry".to_string()),
        Ok(item("two", "src")),
        Err("worse entry".to_string()),
    ];
    let list = select_jobs(entries);
    let names: Vec<&str> = list.jobs.iter().map(|j| j.nickname.as_str()).collect();
    assert_eq!(names, vec!["one", "two"]);
    assert_eq!(list.skipped, vec!["bad entry".to_string(), "worse entry".to_string()]);
    assert_eq!(list.jobs.len() + list.skipped.len(), 4);
}

// ---- filters ----

#[test]
fn registry_makes_rules_case_insensitive() {
    let r = registry(&[r".*\.pdf", "a"]);
    assert_eq!(r.patterns(), &strings(&[r"(?i).*\.pdf", "(?i)a"]));
    assert!(r.is_match("REPORT.PDF"));
}

#[test]
fn registry_uses_default_without_rules() {
    let r = build_regex_registry(&None, strings(&[".*"])).ok().unwrap();
    assert_eq!(r.patterns(), &strings(&["(?i).*"]));
    assert!(r.is_match(""));
    assert!(r.is_match("/any/path"));
    let none = build_regex_registry(&None, vec![]).ok().unwrap();
    assert!(!none.is_match("/any/path"));
    assert!(none.patterns().is_empty());
}

#[test]
fn registry_reports_bad_rules() {
    match build_regex_registry(&Some(strings(&["ok", "("])), vec![]) {
        Err(e) => assert!(e.0.contains("unclosed group")),
        Ok(_) => panic!("compiled a bad rule"),
    }
}

#[test]
fn registry_matches_ascending() {
    let r = registry(&["b", "a", "x", "ab"]);
    assert_eq!(r.matches("ab"), vec![0, 1, 3]);
}

#[test]
fn is_valid_needs_an_include_match() {
    let inc = registry(&[r".*\.pdf"]);
    let exc = registry(&[]);
    assert!(matches!(is_valid("/a/b.txt", &inc, &exc), FilterOutcome::NoMatchInclude));
    assert!(matches!(is_valid("/a/b.pdf", &inc, &exc), FilterOutcome::Valid));
}

#[test]
fn is_valid_exclude_wins_over_include() {
    let inc = registry(&[r".*\.pdf"]);
    let exc = registry(&[".*contract.*", "zzz", ".*/x/.*"]);
    match is_valid("/x/contract.pdf", &inc, &exc) {
        FilterOutcome::MatchExclude(m) => assert_eq!(
            m,
            "/x/contract.pdf matched by the following exclude regexes: (?i).*contract.*, (?i).*/x/.*"
        ),
        _ => panic!("not excluded"),
    }
}

#[test]
fn identify_path_classifies_entries() {
    let inc = registry(&[r".*\.pdf"]);
    let exc = registry(&[".*secret.*"]);
    assert!(matches!(identify_path("/d", true, &inc, &exc), PathType::Directory));
    assert!(matches!(identify_path("/d/a.pdf", false, &inc, &exc), PathType::File(f) if f == "/d/a.pdf"));
    assert!(matches!(identify_path("/d/a.txt", false, &inc, &exc),
        PathType::Skip(m) if m == "/d/a.txt did not match any include rule"));
    assert!(matches!(identify_path("/d/secret.pdf", false, &inc, &exc),
        PathType::Skip(m) if m == "/d/secret.pdf matched by the following exclude regexes: (?i).*secret.*"));
}

fn sample_files(n: usize) -> Vec<String> {
    const EXTS: [&str; 8] = ["rs", "pdf", "txt", "md", "json", "png", "tar.gz", "log"];
    (0..n)
        .map(|i| {
            let ext = EXTS[i % EXTS.len()];
            let name = if i % 17 == 0 { "contratto" } else { "documento" };
            format!("/home/user/docs/{}/{}/{name}_{i}.{ext}", i % 13, i % 7)
        })
        .collect()
}

fn kept(files: &[String], inc: &RegexRegistry, exc: &RegexRegistry) -> Vec<String> {
    files
        .iter()
        .filter(|f| matches!(is_valid(f, inc, exc), FilterOutcome::Valid))
        .cloned()
        .collect()
}

#[test]
fn filters_keep_pdfs_except_contracts() {
    let files = sample_files(40);
    let got = kept(&files, &registry(&[r".*\.pdf"]), &registry(&[r".*contratto.*"]));
    let want: Vec<String> = [1, 9, 25, 33].iter().map(|&i| files[i].clone()).collect();
    assert_eq!(got, want);
}

#[test]
fn filters_ignore_case() {
    let files = sample_files(40);
    assert_eq!(kept(&files, &registry(&[r".*\.PDF"]), &registry(&[])).len(), 5);
}

#[test]
fn empty_include_list_keeps_nothing() {
    let files = sample_files(40);
    assert!(kept(&files, &registry(&[]), &registry(&[])).is_empty());
}

#[test]
fn omitted_include_keeps_everything_not_excluded() {
    let files = sample_files(40);
    let inc = build_regex_registry(&None, strings(&[".*"])).ok().unwrap();
    let exc = build_regex_registry(&None, vec![]).ok().unwrap();
    assert_eq!(kept(&files, &inc, &exc), files);
}

#[test]
fn wider_rules_never_drop_files() {
    let files = sample_files(60);
    let narrow = kept(&files, &registry(&[r".*\.pdf"]), &registry(&[".*contratto.*", ".*/3/.*"]));
    let wide = kept(&files, &registry(&[r".*\.pdf", r".*\.md"]), &registry(&[".*contratto.*"]));
    assert!(narrow.len() < wide.len());
    for f in &narrow {
        assert!(wide.contains(f));
    }
}

#[test]
fn registry_of_no_patterns_builds() {
    let r = RegexRegistry::compile(vec![]).ok().unwrap();
    assert!(!r.is_match("anything"));
    assert!(r.matches("anything").is_empty());
    match RegexRegistry::compile(strings(&["a", "(b"])) {
        Err(e) => assert!(!e.0.is_empty()),
        Ok(_) => panic!("compiled a bad pattern"),
    }
}

#[test]
fn directory_walk_is_depth_first() {
    let mut w = DirectoryWalk::new("root");
    assert_eq!(w.next_dir(), Some("root"));
    w.record("root/a", PathType::Directory);
    w.record("root/f1", PathType::File("root/f1".to_string()));
    w.record("root/b", PathType::Directory);
    w.record("root/s", PathType::Skip("skipped".to_string()));
    assert_eq!(w.next_dir(), Some("root/b"));
    w.record("root/b/f2", PathType::File("root/b/f2".to_string()));
    assert_eq!(w.next_dir(), Some("root/a"));
    assert_eq!(w.next_dir(), None);
    assert_eq!(w.into_files(), strings(&["root/f1", "root/b/f2"]));
}

// ---- archives ----

#[test]
fn join_path_follows_path_join() {
    assert_eq!(join_path_text("out", "a.tar.gz"), "out/a.tar.gz");
    assert_eq!(join_path_text("out/", "a.tar.gz"), "out/a.tar.gz");
    assert_eq!(join_path_text("", "a.tar.gz"), "a.tar.gz");
    assert_eq!(join_path_text("out", "/abs"), "/abs");
    assert_eq!(
        join_path_text("out", "a.tar.gz"),
        std::path::Path::new("out").join("a.tar.gz").to_str().unwrap()
    );
}

#[test]
fn archive_named_after_job_and_time() {
    let n = Nickname::new("docs").ok().unwrap();
    let dir = WorkingPath::new("src").ok().unwrap();
    let a = Archive::named(&n, &dir, "2024-05-01T10:20:30Z");
    assert_eq!(a.path(), "src/docs-2024-05-01T10:20:30Z.tar.gz");
}

#[test]
fn archive_new_uses_rfc3339_seconds() {
    let n = Nickname::new("docs").ok().unwrap();
    let dir = WorkingPath::new(".").ok().unwrap();
    let a = Archive::new(&n, &dir);
    let p = a.path();
    assert!(p.starts_with("./docs-"));
    assert!(p.ends_with(".tar.gz"));
    let ts = &p["./docs-".len()..p.len() - ".tar.gz".len()];
    assert_eq!(ts.len(), 20);
    assert!(ts.ends_with('Z'));
    assert_eq!(&ts[4..5], "-");
    assert_eq!(&ts[10..11], "T");
    assert!(chrono::DateTime::parse_from_rfc3339(ts).is_ok());
}

#[test]
fn plan_uses_defaults() {
    let config = item("docs", "src");
    let dot = WorkingPath::new(".");
    let plan = plan_archive(&config, dot, "2024-05-01T10:20:30Z").ok().unwrap();
    assert_eq!(plan.archive.path(), "./docs-2024-05-01T10:20:30Z.tar.gz");
    assert_eq!(plan.compression_level, 1);
    let f = plan.filters.ok().unwrap();
    assert_eq!(f.include_rgx.patterns(), &strings(&["(?i).*"]));
    assert!(f.exclude_rgx.patterns().is_empty());
}

#[test]
fn plan_uses_job_settings() {
    let mut config = item("docs", "src");
    config.output_directory = Some(WorkingPath::new("tests").ok().unwrap());
    config.compression_level = Some(CompressionLevel::Best);
    config.include_rules = Some(strings(&[r".*\.rs"]));
    config.exclude = Some(strings(&["lib"]));
    let plan = plan_archive(&config, WorkingPath::new("."), "T").ok().unwrap();
    assert_eq!(plan.archive.path(), "tests/docs-T.tar.gz");
    assert_eq!(plan.compression_level, 9);
    let f = plan.filters.ok().unwrap();
    assert_eq!(f.include_rgx.patterns(), &strings(&[r"(?i).*\.rs"]));
    assert_eq!(f.exclude_rgx.patterns(), &strings(&["(?i)lib"]));
}

#[test]
fn plan_reports_bad_rules_in_filters() {
    let mut config = item("docs", "src");
    config.exclude = Some(strings(&["[unclosed"]));
    let plan = plan_archive(&config, WorkingPath::new("."), "T").ok().unwrap();
    assert!(plan.filters.is_err());
    assert_eq!(plan.archive.path(), "./docs-T.tar.gz");
}

#[test]
fn plan_fails_without_current_directory() {
    let config = item("docs", "src");
    let missing = Err(ConfigValueError::InvalidWorkingPath(".".to_string()));
    match plan_archive(&config, missing, "T") {
        Err(e) => assert_eq!(e.message(), "Invalid path '.': must exists on filesystem"),
        Ok(_) => panic!("planned without a current directory"),
    }
}

#[test]
fn create_archive_plans_in_current_directory() {
    let config = item("backup", "src");
    let plan = create_archive(&config).ok().unwrap();
    assert!(plan.archive.path().starts_with("./backup-"));
    assert!(plan.archive.path().ends_with(".tar.gz"));
    assert_eq!(plan.compression_level, 1);
    assert!(plan.filters.is_ok());
}

#[test]
fn tar_entry_names_are_relative() {
    let input = WorkingPath::new("src").ok().unwrap();
    assert_eq!(tar_entry_name("src/lib.rs", &input).ok().unwrap(), "./lib.rs");
    assert_eq!(tar_entry_name("src/a/b.txt", &input).ok().unwrap(), "./a/b.txt");
    match tar_entry_name("other/lib.rs", &input) {
        Err(e) => assert_eq!(e.message(), "prefix not found"),
        Ok(_) => panic!("accepted a file outside the input"),
    }
    assert!(tar_entry_name("srcx/lib.rs", &input).is_err());
}

// ---- progress bar ----

#[test]
fn progress_bar_starts_empty() {
    let b = ProgressBar::new(10, 4);
    assert_eq!(b.render(), "[>       ]");
    assert_eq!(b.width(), 10);
    assert_eq!(b.seen(), 0);
    assert_eq!(b.population(), 4);
}

#[test]
fn progress_bar_of_two_cells() {
    let b = ProgressBar::new(2, 0);
    assert_eq!(b.render(), "[]");
}

#[test]
fn progress_bar_moves_and_redraws_once() {
    let mut b = ProgressBar::new(10, 4);
    assert_eq!(b.show(), Some("\r[>       ]".to_string()));
    assert_eq!(b.show(), None);
    b.progress(2);
    assert_eq!(b.seen(), 1);
    assert_eq!(b.position(), 2);
    assert_eq!(b.render(), "[>=>     ]");
    assert_eq!(b.show(), Some("\r[>=>     ]".to_string()));
    b.progress(2);
    assert_eq!(b.show(), None);
    b.progress(8);
    assert_eq!(b.render(), "[>=>    =]");
    assert_eq!(b.show(), Some("\r[>=>    =]\n".to_string()));
}

#[test]
fn progress_bar_never_erases_fill() {
    let mut b = ProgressBar::new(8, 3);
    for index in [2, 4, 6] {
        b.progress(index);
        let cells: Vec<char> = b.render().chars().collect();
        assert_eq!(cells[0], '[');
        assert_eq!(cells[7], ']');
        for filled in [2, 4, 6].iter().filter(|&&i| i <= index) {
            assert_eq!(cells[*filled], '=');
        }
    }
    assert_eq!(b.render(), "[>=>=>=]");
    assert_eq!(b.seen(), 3);
}

#[test]
fn progress_bar_unit_steps_keep_shape() {
    let mut b = ProgressBar::new(7, 5);
    let shapes = ["[=>   ]", "[==>  ]", "[===> ]", "[====>]", "[=====]"];
    for (i, want) in shapes.iter().enumerate() {
        b.progress(i + 1);
        assert_eq!(b.render(), *want);
    }
    b.progress(5);
    assert_eq!(b.render(), "[=====]");
    assert_eq!(b.seen(), 6);
}
