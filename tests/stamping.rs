use spdx::comments::{lookup, resolve_key};
use spdx::config::{read_config, Commands, Config};
use spdx::error::SpdxError;
use spdx::header::{build_detection_pattern, build_header, check_stamped, starts_with};
use spdx::process::process_file;
use spdx::walk::{visit, IgnoreFilter, NodeKind, Visit, WorkQueue};

const EXAMPLE_HEADER: &str =
    "#\n# Copyright Example, Inc.\n#\n# SPDX-License-Identifier: MIT\n#\n\n";

fn example_config() -> Config {
    let mut c = Config::default();
    c.copyright = "Copyright Example, Inc.".to_string();
    c.license = "MIT".to_string();
    c
}

fn no_cli() -> Commands {
    Commands {
        config_file: ".spdx.yml".to_string(),
        copyright: None,
        ignore: None,
        license: None,
        starting_directory: ".".to_string(),
    }
}

fn run(name: &str, contents: &str, config: &Config) -> String {
    let n = contents.len();
    match process_file(name, n, n, contents, config).unwrap() {
        Some(c) => c,
        None => contents.to_string(),
    }
}

#[test]
fn header_literal_example() {
    assert_eq!(build_header("#", "Copyright Example, Inc.", "MIT"), EXAMPLE_HEADER);
}

#[test]
fn empty_shell_script_gets_exact_header() {
    let cfg = example_config();
    let r = process_file("empty.sh", 0, 0, "", &cfg).unwrap();
    assert_eq!(r, Some(EXAMPLE_HEADER.to_string()));
}

#[test]
fn header_prepended_to_original_contents() {
    let cfg = example_config();
    let out = run("dir/tool.sh", "echo hi\n", &cfg);
    assert_eq!(out, format!("{}echo hi\n", EXAMPLE_HEADER));
}

#[test]
fn go_and_rust_prefixes() {
    let cfg = example_config();
    let go = run("main.go", "package main\n", &cfg);
    assert!(go.starts_with("//\n// Copyright Example, Inc.\n//\n// SPDX-License-Identifier: MIT\n//\n\npackage main\n"));
    let rs = run("lib.rs", "", &cfg);
    assert_eq!(rs, "///\n/// Copyright Example, Inc.\n///\n/// SPDX-License-Identifier: MIT\n///\n\n");
}

#[test]
fn processing_twice_is_idempotent() {
    let cfg = example_config();
    let once = run("script.py", "print('x')\n", &cfg);
    let twice = run("script.py", &once, &cfg);
    assert_eq!(once, twice);
    let n = once.len();
    assert_eq!(process_file("script.py", n, n, &once, &cfg).unwrap(), None);
}

#[test]
fn python_extension_resolves_to_py_entry() {
    let cfg = Config::default();
    assert_eq!(resolve_key("script.py"), "py");
    assert_eq!(lookup(&cfg.comments, "script.py"), Some("#".to_string()));
    assert_eq!(lookup(&cfg.comments, "a/b/script.py"), Some("#".to_string()));
}

#[test]
fn dotfile_resolves_to_bare_name() {
    let cfg = Config::default();
    assert_eq!(resolve_key(".gitignore"), "gitignore");
    assert_eq!(lookup(&cfg.comments, ".gitignore"), Some("#".to_string()));
    assert_eq!(lookup(&cfg.comments, "repo/.dockerignore"), Some("#".to_string()));
}

#[test]
fn file_without_extension_uses_file_name() {
    assert_eq!(resolve_key("build/Dockerfile"), "Dockerfile");
    let mut cfg = Config::default();
    assert_eq!(lookup(&cfg.comments, "build/Dockerfile"), None);
    cfg.comments.push(("Dockerfile".to_string(), "#".to_string()));
    assert_eq!(lookup(&cfg.comments, "build/Dockerfile"), Some("#".to_string()));
}

#[test]
fn key_uses_last_dot_of_last_component() {
    assert_eq!(resolve_key("a.b/c.tar.gz"), "gz");
    assert_eq!(resolve_key("a.d/Makefile"), "Makefile");
    assert_eq!(lookup(&Config::default().comments, "x/y.rs"), Some("///".to_string()));
    assert_eq!(lookup(&Config::default().comments, "x/y.go"), Some("//".to_string()));
}

#[test]
fn unmapped_extension_is_noop() {
    let cfg = example_config();
    let contents = "MZ binary";
    let n = contents.len();
    assert_eq!(process_file("tool.exe", n, n, contents, &cfg).unwrap(), None);
}

#[test]
fn short_read_is_io_error() {
    let cfg = example_config();
    let r = process_file("script.sh", 10, 7, "echo hi", &cfg);
    assert!(matches!(r, Err(SpdxError::IoError(_))));
    let r = process_file("tool.exe", 10, 7, "echo hi", &cfg);
    assert!(matches!(r, Err(SpdxError::IoError(_))));
}

#[test]
fn header_found_anywhere_is_stamped() {
    let cfg = example_config();
    let contents = format!("#!/bin/sh\n{}echo hi\n", EXAMPLE_HEADER);
    let n = contents.len();
    assert_eq!(process_file("run.sh", n, n, &contents, &cfg).unwrap(), None);
}

#[test]
fn header_with_other_whitespace_is_stamped() {
    let contents = "#   \n#\tCopyright Example, Inc.\n\n#\n#  SPDX-License-Identifier:   MIT\r\n#\n";
    assert_eq!(check_stamped(contents, "#", "Copyright Example, Inc.", "MIT"), Some(true));
}

#[test]
fn changed_copyright_adds_second_header() {
    let cfg = example_config();
    let mut other = example_config();
    other.copyright = "Copyright Other".to_string();
    let once = run("a.sh", "", &cfg);
    let again = run("a.sh", &once, &other);
    assert_eq!(again, format!("#\n# Copyright Other\n#\n# SPDX-License-Identifier: MIT\n#\n\n{}", once));
}

#[test]
fn copyright_with_regex_characters_matched_literally() {
    let header = build_header("#", "(c) Foo+Bar.", "MIT");
    let contents = format!("#!/bin/sh\n{}", header);
    assert_eq!(check_stamped(&contents, "#", "(c) Foo+Bar.", "MIT"), Some(true));
    let near = "#!/bin/sh\n#\n# c FooBar.\n#\n# SPDX-License-Identifier: MIT\n#\n";
    assert_eq!(check_stamped(near, "#", "(c) Foo+Bar.", "MIT"), Some(false));
}

#[test]
fn detection_pattern_escapes_literals() {
    let p = build_detection_pattern("#", "a.b", "MIT");
    assert_eq!(p, "\\#\\s+\\#\\s+a\\.b\\s+\\#\\s+\\#\\s+SPDX-License-Identifier:\\s+MIT\\s+\\#\\s+");
}

#[test]
fn starts_with_cases() {
    assert!(starts_with("abc", ""));
    assert!(starts_with("abc", "ab"));
    assert!(!starts_with("abc", "abcd"));
    assert!(!starts_with("abc", "b"));
}

#[test]
fn ignore_pruning() {
    let filter = IgnoreFilter::new(&vec!["node_modules".to_string()]).unwrap();
    assert_eq!(visit(&filter, NodeKind::Directory, "./web/node_modules"), Visit::Ignore);
    assert_eq!(visit(&filter, NodeKind::File, "./web/node_modules/x/index.sh"), Visit::Ignore);
    assert_eq!(visit(&filter, NodeKind::Directory, "./web/src"), Visit::Scan);
    assert_eq!(visit(&filter, NodeKind::File, "./web/src/run.sh"), Visit::Process);
    assert_eq!(visit(&filter, NodeKind::Other, "./web/node_modules"), Visit::Skip);
    assert!(filter.is_match("xnode_modulesx"));
    assert!(!filter.is_match("node-modules"));
}

#[test]
fn empty_filter_matches_nothing() {
    let filter = IgnoreFilter::new(&Vec::new()).unwrap();
    assert!(!filter.is_match("anything"));
    assert_eq!(visit(&filter, NodeKind::Directory, "."), Visit::Scan);
}

#[test]
fn regex_ignore_patterns() {
    let filter = IgnoreFilter::new(&vec!["^\\./target".to_string(), "\\.git$".to_string()]).unwrap();
    assert!(filter.is_match("./target/debug"));
    assert!(!filter.is_match("./src/target"));
    assert!(filter.is_match("./.git"));
    assert!(!filter.is_match("./.github"));
}

#[test]
fn invalid_ignore_pattern_is_config_error() {
    let r = IgnoreFilter::new(&vec!["ok".to_string(), "(unclosed".to_string()]);
    assert!(matches!(r, Err(SpdxError::ConfigError(_))));
}

#[test]
fn queue_is_first_in_first_out() {
    let mut q = WorkQueue::new("root".to_string());
    assert!(!q.is_empty());
    q.push_back("a".to_string());
    q.push_back("b".to_string());
    assert_eq!(q.pop_front(), Some("root".to_string()));
    q.push_back("c".to_string());
    assert_eq!(q.pop_front(), Some("a".to_string()));
    assert_eq!(q.pop_front(), Some("b".to_string()));
    assert_eq!(q.pop_front(), Some("c".to_string()));
    assert!(q.is_empty());
    assert_eq!(q.pop_front(), None);
}

#[test]
fn defaults() {
    let c = Config::default();
    assert_eq!(c.copyright, "Copyright Coinbase, Inc. All Rights Reserved.");
    assert_eq!(c.license, "Apache-2.0");
    assert_eq!(c.comments.len(), 10);
    assert!(c.ignore.is_empty());
}

#[test]
fn defaults_without_file_or_cli() {
    let c = read_config(&no_cli(), None);
    assert_eq!(c.copyright, "Copyright Coinbase, Inc. All Rights Reserved.");
    assert_eq!(c.license, "Apache-2.0");
    assert_eq!(c.comments.len(), 10);
    assert!(c.ignore.is_empty());
}

#[test]
fn file_overrides_defaults() {
    let file = Config {
        copyright: "File Corp".to_string(),
        license: "".to_string(),
        comments: vec![("c".to_string(), "//".to_string())],
        ignore: vec!["vendor".to_string()],
    };
    let c = read_config(&no_cli(), Some(file));
    assert_eq!(c.copyright, "File Corp");
    assert_eq!(c.license, "Apache-2.0");
    assert_eq!(c.comments, vec![("c".to_string(), "//".to_string())]);
    assert_eq!(c.ignore, vec!["vendor".to_string()]);
    assert_eq!(lookup(&c.comments, "x.py"), None);
}

#[test]
fn cli_overrides_file() {
    let file = Config {
        copyright: "File Corp".to_string(),
        license: "BSD-3-Clause".to_string(),
        comments: vec![],
        ignore: vec!["vendor".to_string()],
    };
    let mut cmd = no_cli();
    cmd.copyright = Some("Cli Corp".to_string());
    cmd.license = Some("MIT".to_string());
    cmd.ignore = Some(vec!["target".to_string(), "dist".to_string()]);
    let c = read_config(&cmd, Some(file));
    assert_eq!(c.copyright, "Cli Corp");
    assert_eq!(c.license, "MIT");
    assert_eq!(c.ignore, vec!["target".to_string(), "dist".to_string()]);
    assert!(c.comments.is_empty());
}

#[test]
fn cli_overrides_defaults_without_file() {
    let mut cmd = no_cli();
    cmd.license = Some("MIT".to_string());
    let c = read_config(&cmd, None);
    assert_eq!(c.license, "MIT");
    assert_eq!(c.copyright, "Copyright Coinbase, Inc. All Rights Reserved.");
}

#[test]
fn current_dir_sentinel() {
    let mut cmd = no_cli();
    assert!(cmd.starts_at_current_dir());
    cmd.starting_directory = "./src".to_string();
    assert!(!cmd.starts_at_current_dir());
    cmd.starting_directory = "..".to_string();
    assert!(!cmd.starts_at_current_dir());
}

#[test]
fn error_messages() {
    assert_eq!(SpdxError::IoError("x".to_string()).message(), "x");
    let cfg = example_config();
    match process_file("a.sh", 1, 0, "", &cfg) {
        Err(e) => assert_eq!(e.message(), "Unable to read entire file contents"),
        Ok(_) => panic!("expected a short read"),
    }
}
