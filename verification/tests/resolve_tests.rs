use hdrgen::ast::Attr;
use hdrgen::ast::AttrKind;
use hdrgen::ast::Abi;
use hdrgen::ast::Item;
use hdrgen::extract::emit_module;
use hdrgen::paths::file_name_of;
use hdrgen::paths::join_path;
use hdrgen::paths::parent_of;
use hdrgen::resolve::Action;
use hdrgen::resolve::Event;
use hdrgen::resolve::Resolver;

struct Log {
    visits: Vec<(String, Vec<String>)>,
    warns: Vec<String>,
    reads: Vec<String>,
    checks: Vec<String>,
}

/// Drives a resolver against an in-memory tree: `files` maps a path to a
/// parsed module body (consumed on first read), `dirs` lists the
/// directories that exist. Returns everything the machine asked for.
fn drive(root: &str, mut files: Vec<(String, Vec<Item>)>, dirs: Vec<String>) -> Log {
    let mut r = Resolver::new(root.to_string());
    let mut ev = Event::Proceed;
    let mut log = Log { visits: vec![], warns: vec![], reads: vec![], checks: vec![] };
    let mut steps = 0;
    loop {
        steps += 1;
        assert!(steps < 10_000, "walk did not finish");
        match r.step(ev) {
            Action::ReadModule { path } => {
                log.reads.push(path.clone());
                let pos = files
                    .iter()
                    .position(|(p, _)| *p == path)
                    .unwrap_or_else(|| panic!("unexpected read of {}", path));
                let (_, items) = files.remove(pos);
                ev = Event::Parsed { items };
            }
            Action::CheckPath { path } => {
                log.checks.push(path.clone());
                let found = files.iter().any(|(p, _)| *p == path)
                    || dirs.iter().any(|d| *d == path);
                ev = Event::Exists { found };
            }
            Action::VisitBody { crate_name } => {
                let (blocks, err) = emit_module(r.body_items());
                assert!(err.is_none());
                log.visits.push((crate_name, blocks));
                ev = Event::Proceed;
            }
            Action::VisitInline { crate_name } => {
                let (blocks, err) = emit_module(r.inline_items());
                assert!(err.is_none());
                log.visits.push((crate_name, blocks));
                ev = Event::Proceed;
            }
            Action::Warn { message } => {
                log.warns.push(message);
                ev = Event::Proceed;
            }
            Action::Working => {
                ev = Event::Proceed;
            }
            Action::Done => break,
        }
    }
    log
}

fn marked_fn(name: &str) -> Item {
    Item::Function {
        name: name.to_string(),
        attrs: vec![Attr { outer: true, kind: AttrKind::NoMangle }],
        abi: Some(Abi::Named { name: "C".to_string() }),
        args: vec![],
        ret: None,
    }
}

fn proto(name: &str) -> String {
    format!("WR_INLINE void\n{}()\nWR_FUNC;\n", name)
}

#[test]
fn base_name_and_parent() {
    assert_eq!(file_name_of("work/my-crate"), "my-crate");
    assert_eq!(file_name_of("plain"), "plain");
    assert_eq!(file_name_of("a/b/c"), "c");
    assert_eq!(parent_of("a/b/c"), "a/b");
    assert_eq!(parent_of("plain"), "");
    assert_eq!(join_path("a/b", "c.rs"), "a/b/c.rs");
    assert_eq!(join_path("", "c"), "c");
}

#[test]
fn walks_a_single_crate() {
    let log = drive(
        "work/wrapper",
        vec![("work/wrapper/src/lib.rs".to_string(), vec![marked_fn("go"), Item::Other])],
        vec![],
    );
    assert_eq!(log.reads, vec!["work/wrapper/src/lib.rs".to_string()]);
    assert_eq!(log.visits, vec![("wrapper".to_string(), vec![proto("go")])]);
    assert!(log.warns.is_empty());
    assert!(log.checks.is_empty());
}

#[test]
fn inline_submodule_flattened_without_file_lookup() {
    let entry = vec![Item::Module {
        name: "detail".to_string(),
        body: Some(vec![marked_fn("inner")]),
    }];
    let log = drive(
        "work/wrapper",
        vec![("work/wrapper/src/lib.rs".to_string(), entry)],
        vec![],
    );
    assert_eq!(
        log.visits,
        vec![
            ("wrapper".to_string(), vec![]),
            ("wrapper".to_string(), vec![proto("inner")]),
        ]
    );
    assert!(log.checks.is_empty(), "inline submodule must not be looked up on disk");
    assert_eq!(log.reads.len(), 1);
    assert!(log.warns.is_empty());
}

#[test]
fn file_submodule_found_at_first_candidate() {
    let entry = vec![Item::Module { name: "m".to_string(), body: None }];
    let log = drive(
        "work/wrapper",
        vec![
            ("work/wrapper/src/lib.rs".to_string(), entry),
            ("work/wrapper/src/m.rs".to_string(), vec![marked_fn("from_m")]),
        ],
        vec![],
    );
    assert_eq!(log.checks, vec!["work/wrapper/src/m.rs".to_string()]);
    assert_eq!(
        log.reads,
        vec!["work/wrapper/src/lib.rs".to_string(), "work/wrapper/src/m.rs".to_string()]
    );
    assert_eq!(
        log.visits,
        vec![
            ("wrapper".to_string(), vec![]),
            ("wrapper".to_string(), vec![proto("from_m")]),
        ]
    );
}

#[test]
fn dir_submodule_resolves_deeper_modules_under_its_dir() {
    let entry = vec![Item::Module { name: "m".to_string(), body: None }];
    let m_body = vec![Item::Module { name: "deep".to_string(), body: None }];
    let log = drive(
        "work/wrapper",
        vec![
            ("work/wrapper/src/lib.rs".to_string(), entry),
            ("work/wrapper/src/m/mod.rs".to_string(), m_body),
            ("work/wrapper/src/m/deep.rs".to_string(), vec![marked_fn("deepest")]),
        ],
        vec![],
    );
    assert_eq!(
        log.checks,
        vec![
            "work/wrapper/src/m.rs".to_string(),
            "work/wrapper/src/m/mod.rs".to_string(),
            "work/wrapper/src/m/deep.rs".to_string(),
        ]
    );
    assert_eq!(
        log.visits,
        vec![
            ("wrapper".to_string(), vec![]),
            ("wrapper".to_string(), vec![]),
            ("wrapper".to_string(), vec![proto("deepest")]),
        ]
    );
}

#[test]
fn missing_submodule_warns_and_continues() {
    let entry = vec![
        Item::Module { name: "gone".to_string(), body: None },
        marked_fn("after"),
    ];
    let log = drive(
        "work/wrapper",
        vec![("work/wrapper/src/lib.rs".to_string(), entry)],
        vec![],
    );
    assert_eq!(log.warns, vec!["warning, can't find a mod's file".to_string()]);
    assert_eq!(
        log.checks,
        vec![
            "work/wrapper/src/gone.rs".to_string(),
            "work/wrapper/src/gone/mod.rs".to_string(),
        ]
    );
    assert_eq!(log.visits, vec![("wrapper".to_string(), vec![proto("after")])]);
}

#[test]
fn missing_extern_crate_warns_and_continues() {
    let entry = vec![
        Item::ExternCrate { name: "nope".to_string() },
        Item::Module { name: "tail".to_string(), body: Some(vec![marked_fn("still_here")]) },
    ];
    let log = drive(
        "work/wrapper",
        vec![("work/wrapper/src/lib.rs".to_string(), entry)],
        vec![],
    );
    assert_eq!(log.warns, vec!["warning, can't find an extern crate nope".to_string()]);
    assert_eq!(log.checks, vec!["work/nope".to_string()]);
    assert_eq!(
        log.visits,
        vec![
            ("wrapper".to_string(), vec![]),
            ("wrapper".to_string(), vec![proto("still_here")]),
        ]
    );
}

#[test]
fn extern_crate_visited_under_its_own_name() {
    let entry = vec![Item::ExternCrate { name: "dep".to_string() }];
    let log = drive(
        "work/wrapper",
        vec![
            ("work/wrapper/src/lib.rs".to_string(), entry),
            ("work/dep/src/lib.rs".to_string(), vec![marked_fn("dep_fn")]),
        ],
        vec!["work/dep".to_string()],
    );
    assert_eq!(log.checks, vec!["work/dep".to_string()]);
    assert_eq!(
        log.reads,
        vec!["work/wrapper/src/lib.rs".to_string(), "work/dep/src/lib.rs".to_string()]
    );
    assert_eq!(
        log.visits,
        vec![
            ("wrapper".to_string(), vec![]),
            ("dep".to_string(), vec![proto("dep_fn")]),
        ]
    );
}

#[test]
fn traversal_is_depth_first_preorder() {
    let entry = vec![
        marked_fn("root_fn"),
        Item::Module { name: "a".to_string(), body: Some(vec![marked_fn("a_fn")]) },
        Item::Module { name: "b".to_string(), body: None },
        Item::Module { name: "c".to_string(), body: Some(vec![marked_fn("c_fn")]) },
    ];
    let log = drive(
        "work/wrapper",
        vec![
            ("work/wrapper/src/lib.rs".to_string(), entry),
            ("work/wrapper/src/b.rs".to_string(), vec![marked_fn("b_fn")]),
        ],
        vec![],
    );
    assert_eq!(
        log.visits,
        vec![
            ("wrapper".to_string(), vec![proto("root_fn")]),
            ("wrapper".to_string(), vec![proto("a_fn")]),
            ("wrapper".to_string(), vec![proto("b_fn")]),
            ("wrapper".to_string(), vec![proto("c_fn")]),
        ]
    );
}
