use genlink::{GenLink, Ld, LinkError, link_outcome};

fn canon(p: &str) -> String {
    dunce::canonicalize(p)
        .expect("path must exist")
        .to_string_lossy()
        .into_owned()
}

#[test]
fn new_binds_program_and_leaves_args_empty() {
    let g = GenLink::new(Ld);
    assert_eq!(g.command().program().as_str(), "ld");
    assert!(g.command().args().is_empty());
}

#[test]
fn obj_appends_canonical_absolute_form() {
    let mut g = GenLink::new(Ld);
    g.obj(".").expect("the current directory exists");
    let args = g.command().args();
    assert_eq!(args.len(), 1);
    assert_eq!(args[0], canon("."));
    assert_ne!(args[0], ".");
    assert!(args[0].starts_with('/') || args[0].contains(':'));
}

#[test]
fn obj_missing_path_fails_and_leaves_command_unmodified() {
    let mut g = GenLink::new(Ld);
    let r = g.obj("does/not/exist.o");
    assert!(matches!(r, Err(LinkError::PathResolutionFailure { .. })));
    assert!(g.command().args().is_empty());
}

#[test]
fn objs_is_fail_fast() {
    let mut g = GenLink::new(Ld);
    let batch = vec![
        ".".to_string(),
        "does/not/exist.o".to_string(),
        "/".to_string(),
    ];
    let r = g.objs(&batch);
    assert!(matches!(r, Err(LinkError::PathResolutionFailure { .. })));
    // The entry before the failing one was already appended and stays;
    // the entry after it was never processed.
    let args = g.command().args();
    assert_eq!(args.len(), 1);
    assert_eq!(args[0], canon("."));
}

#[test]
fn objs_appends_each_in_order() {
    let mut g = GenLink::new(Ld);
    let batch = vec![".".to_string(), "/".to_string()];
    g.objs(&batch).expect("both paths exist");
    let args = g.command().args();
    assert_eq!(args.len(), 2);
    assert_eq!(args[0], canon("."));
    assert_eq!(args[1], canon("/"));
}

#[test]
fn ok_is_idempotent_in_an_unchanged_environment() {
    let g = GenLink::new(Ld);
    let first = g.ok();
    let second = g.ok();
    assert_eq!(first, second);
}

#[test]
fn ok_is_no_fatal_condition() {
    // Whatever `ok` answers, the builder stays usable afterwards.
    let mut g = GenLink::new(Ld);
    let _ = g.ok();
    let _ = g.ok();
    g.dylib("m");
    assert_eq!(g.command().args().len(), 2);
}

#[test]
fn link_success_returns_canonical_destination() {
    let mut g = GenLink::new(Ld);
    g.obj(".").expect("the current directory exists");
    g.output("/".to_string());
    let dest = g.prepare_link().expect("the output path exists");
    assert_eq!(dest, canon("/"));
    let args = g.command().args();
    assert_eq!(args[args.len() - 2], "-o");
    assert_eq!(args[args.len() - 1], dest);
    // A zero exit status yields the destination.
    let r = link_outcome(dest.clone(), true, Some(0), Vec::new(), Vec::new());
    assert_eq!(r.expect("success"), dest);
}

#[test]
fn link_failure_wraps_captured_output() {
    let dest = canon("/");
    let r = link_outcome(
        dest,
        false,
        Some(1),
        Vec::new(),
        b"undefined reference to `main'".to_vec(),
    );
    match r {
        Err(LinkError::LinkFailure {
            code,
            stdout,
            stderr,
        }) => {
            assert_eq!(code, Some(1));
            assert!(stdout.is_empty());
            let text = String::from_utf8(stderr).expect("utf-8 stderr");
            assert!(text.contains("undefined reference"));
        }
        _ => panic!("a non-zero exit must be a link failure"),
    }
}

#[test]
fn prepare_link_missing_output_fails_and_leaves_command_unmodified() {
    let mut g = GenLink::new(Ld);
    g.output("does/not/exist/out.bin".to_string());
    let r = g.prepare_link();
    assert!(matches!(r, Err(LinkError::PathResolutionFailure { .. })));
    assert!(g.command().args().is_empty());
}
