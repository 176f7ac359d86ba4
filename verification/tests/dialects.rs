use genlink::{Arg, BasicArgs, Cmd, GenLink, Ld, Link, Linker, Property};

#[test]
fn arg_and_property_are_plain_values() {
    let a = Arg {
        arg: "shared".to_string(),
        value: None,
    };
    let b = Arg {
        arg: "soname".to_string(),
        value: Some("libm.so.6".to_string()),
    };
    let p = Property {
        name: "ld".to_string(),
        required_args: vec![a.clone(), b.clone()],
        basic_args: BasicArgs {},
    };
    assert_eq!(p.name, "ld");
    assert_eq!(p.required_args.len(), 2);
    assert_eq!(p.required_args[1].value.as_deref(), Some("libm.so.6"));
}

#[test]
fn ld_options_describe_the_dialect() {
    let p = Ld.options();
    assert_eq!(p.name, "ld");
    assert!(p.required_args.is_empty());
}

#[test]
fn link_options_describe_the_dialect() {
    let p = Link.options();
    assert_eq!(p.name, "link");
    assert!(p.required_args.is_empty());
}

#[test]
fn ld_renders_name_and_value_as_separate_tokens() {
    let mut cmd = Cmd::new("ld".to_string());
    Ld.add_arg(&mut cmd, "-z", Some("now".to_string()));
    assert_eq!(cmd.args().as_slice(), ["-z", "now"]);
    let mut cmd = Cmd::new("ld".to_string());
    Ld.add_arg(&mut cmd, "--strip-all", None);
    assert_eq!(cmd.args().as_slice(), ["--strip-all"]);
}

#[test]
fn link_joins_name_and_value_in_one_token() {
    let mut cmd = Cmd::new("link".to_string());
    Link.add_arg(&mut cmd, "DEBUG", Some("FULL".to_string()));
    assert_eq!(cmd.args().as_slice(), ["/DEBUG:FULL"]);
    let mut cmd = Cmd::new("link".to_string());
    Link.add_arg(&mut cmd, "DLL", None);
    assert_eq!(cmd.args().as_slice(), ["/DLL"]);
}

#[test]
fn search_path_value_is_recoverable_per_dialect() {
    // Unix dialect: the path is the token after the flag.
    let mut g = GenLink::new(Ld);
    g.path("/usr/local/lib");
    let args = g.command().args().clone();
    assert_eq!(args.as_slice(), ["-L", "/usr/local/lib"]);
    assert!(args.last().unwrap().ends_with("/usr/local/lib"));

    // Joined dialect: the path ends the single token, prefix aside.
    let mut g = GenLink::new(Link);
    g.path("C:lib");
    let args = g.command().args().clone();
    assert_eq!(args.as_slice(), ["/LIBPATH:C:lib"]);
    assert!(args.last().unwrap().ends_with("C:lib"));
}

#[test]
fn libraries_are_dialect_tokens_without_existence_checks() {
    let mut g = GenLink::new(Ld);
    g.dylib("no-such-library-anywhere");
    g.staticlib("m");
    assert_eq!(
        g.command().args().as_slice(),
        ["-l", "no-such-library-anywhere", "-l", "m"]
    );

    let mut g = GenLink::new(Link);
    g.dylib("user32.lib");
    g.staticlib("kernel32.lib");
    assert_eq!(g.command().args().as_slice(), ["user32.lib", "kernel32.lib"]);
}

#[test]
fn plural_registrations_keep_iteration_order() {
    let mut g = GenLink::new(Ld);
    g.dylibs(&vec!["a".to_string(), "b".to_string()]);
    g.staticlibs(&vec!["c".to_string()]);
    g.paths(&vec!["/lib".to_string(), "/usr/lib".to_string()]);
    assert_eq!(
        g.command().args().as_slice(),
        ["-l", "a", "-l", "b", "-l", "c", "-L", "/lib", "-L", "/usr/lib"]
    );
}

#[test]
fn obj_resolved_takes_the_given_form_verbatim() {
    let mut g = GenLink::new(Ld);
    g.obj_resolved("/tmp/whole.o");
    assert_eq!(g.command().args().as_slice(), ["/tmp/whole.o"]);
}

#[test]
fn set_output_tokens_follow_the_dialect() {
    let mut cmd = Cmd::new("ld".to_string());
    Ld.set_output(&mut cmd, "/tmp/a.out");
    assert_eq!(cmd.args().as_slice(), ["-o", "/tmp/a.out"]);
    let mut cmd = Cmd::new("link".to_string());
    Link.set_output(&mut cmd, "a.exe");
    assert_eq!(cmd.args().as_slice(), ["/OUT:a.exe"]);
}

#[test]
fn preprocess_of_a_dialect_without_required_args_adds_nothing() {
    let mut cmd = Cmd::new("ld".to_string());
    Ld.preprocess(&mut cmd);
    assert!(cmd.args().is_empty());
    let mut cmd = Cmd::new("link".to_string());
    Link.preprocess(&mut cmd);
    assert!(cmd.args().is_empty());
}
