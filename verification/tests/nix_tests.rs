use mkproj::nix::NixBuilder;
use mkproj::nix::NixError;
use mkproj::nix::fmt_array;
use mkproj::util::file_error;
use mkproj::util::indent;
use mkproj::util::indentd;
use mkproj::util::str_eq;
use mkproj::util::tr_map;

#[test]
fn indentd_prefixes_every_line() {
    assert_eq!(indentd("a\nb", 2), "  a\n  b");
    assert_eq!(indentd("let", 2), "  let");
    assert_eq!(indentd("x = [\n  y\n]", 4), "    x = [\n      y\n    ]");
}

#[test]
fn indentd_trailing_newline_opens_no_line() {
    assert_eq!(indentd("a\n", 2), "  a\n");
    assert_eq!(indentd("\n", 2), "  \n");
}

#[test]
fn indentd_empty_stays_empty() {
    assert_eq!(indentd("", 6), "");
    assert_eq!(indent(6), "");
}

#[test]
fn tr_map_replaces_characters() {
    assert_eq!(tr_map("a-b_c-d", '-', '_'), "a_b_c_d");
    assert_eq!(tr_map("aaa", 'a', 'b'), "bbb");
    assert_eq!(tr_map("xyz", 'q', 'r'), "xyz");
}

#[test]
fn str_eq_compares_contents() {
    assert!(str_eq("abc", "abc"));
    assert!(!str_eq("abc", "abd"));
    assert!(!str_eq("abc", "ab"));
    assert!(str_eq("", ""));
}

#[test]
fn file_error_quotes_path() {
    assert_eq!(
        file_error("failed to create", "/tmp/x"),
        "failed to create '/tmp/x'"
    );
}

#[test]
fn fmt_array_single_line() {
    let vals = vec!["a".to_string(), "b".to_string()];
    assert_eq!(fmt_array(None, false, &vals), "[ a b ]");
    assert_eq!(fmt_array(Some("pkgs"), false, &vals), "with pkgs; [ a b ]");
}

#[test]
fn fmt_array_multi_line() {
    let vals = vec!["a".to_string(), "b".to_string()];
    assert_eq!(fmt_array(Some("pkgs"), true, &vals), "with pkgs; [\n  a\n  b\n]");
    let empty: Vec<String> = Vec::new();
    assert_eq!(fmt_array(Some("pkgs"), true, &empty), "with pkgs; [\n]");
}

#[test]
fn empty_builder_renders_fixed_skeleton() {
    let nix = NixBuilder::new();
    assert_eq!(
        nix.build(),
        "{ pkgs ? import <nixpkgs> {} }:\n  pkgs.mkShell {\n    buildInputs = with pkgs; [\n    ];\n  }\n"
    );
}

#[test]
fn rec_adds_modifier() {
    let mut nix = NixBuilder::new();
    nix.rec();
    let out = nix.build();
    assert!(out.contains("  pkgs.mkShell rec {\n"));
    // setting it twice changes nothing
    let mut nix2 = NixBuilder::new();
    nix2.rec();
    nix2.rec();
    assert_eq!(nix2.build(), out);
}

#[test]
fn build_is_deterministic() {
    let mut a = NixBuilder::new();
    a.add_letvar_expr("x", "1").unwrap();
    a.add_build_input("jq");
    a.add_expr_attribute("FOO", "x").unwrap();
    let mut b = NixBuilder::new();
    b.add_letvar_expr("x", "1").unwrap();
    b.add_build_input("jq");
    b.add_expr_attribute("FOO", "x").unwrap();
    assert_eq!(a.build(), b.build());
    assert_eq!(a.build(), a.build());
}

#[test]
fn duplicate_input_is_silent_noop() {
    let mut once = NixBuilder::new();
    once.add_build_input("jq");
    let mut twice = NixBuilder::new();
    twice.add_build_input("jq");
    twice.add_build_input("jq");
    assert_eq!(once.build(), twice.build());
}

#[test]
fn duplicate_input_keeps_first_position() {
    let mut nix = NixBuilder::new();
    nix.add_build_input("jq");
    nix.add_build_input("curl");
    nix.add_build_input("jq");
    let out = nix.build();
    assert!(out.contains("with pkgs; [\n      jq\n      curl\n    ];"));
}

#[test]
fn duplicate_binding_fails_and_keeps_first() {
    let mut nix = NixBuilder::new();
    nix.add_letvar_expr("py", "one").unwrap();
    let before = nix.build();
    let r = nix.add_letvar_expr("py", "two");
    match r {
        Err(NixError::LetVarSet(name)) => assert_eq!(name, "py"),
        _ => panic!("expected a letvar collision"),
    }
    // the failed call left the state unchanged
    assert_eq!(nix.build(), before);
    assert!(before.contains("    py = one;\n"));
    // the string flavour collides with the expression flavour too
    assert!(matches!(nix.add_letvar_string("py", "two"), Err(NixError::LetVarSet(_))));
}

#[test]
fn duplicate_attribute_fails_and_keeps_first() {
    let mut nix = NixBuilder::new();
    nix.add_expr_attribute("FOO", "1").unwrap();
    let before = nix.build();
    assert!(matches!(nix.add_expr_attribute("FOO", "2"), Err(NixError::AttrSet(_))));
    assert!(matches!(nix.add_string_attribute("FOO", "2"), Err(NixError::AttrSet(_))));
    assert!(matches!(
        nix.add_expr_attribute_comment("FOO", "2", "c"),
        Err(NixError::AttrSet(_))
    ));
    assert_eq!(nix.build(), before);
    assert!(before.contains("    FOO = 1;\n"));
}

#[test]
fn reserved_inputs_key_always_fails() {
    let mut nix = NixBuilder::new();
    match nix.add_expr_attribute("buildInputs", "[]") {
        Err(NixError::AttrSet(key)) => assert_eq!(key, "buildInputs"),
        _ => panic!("expected the reserved key to collide"),
    }
    assert!(matches!(nix.add_string_attribute("buildInputs", "x"), Err(NixError::AttrSet(_))));
    assert!(matches!(
        nix.add_expr_attribute_comment("buildInputs", "x", "c"),
        Err(NixError::AttrSet(_))
    ));
    // even on a builder that already holds other entries
    nix.add_expr_attribute("FOO", "1").unwrap();
    assert!(matches!(nix.add_expr_attribute("buildInputs", "x"), Err(NixError::AttrSet(_))));
}

#[test]
fn string_values_are_quoted() {
    let mut nix = NixBuilder::new();
    nix.add_string_attribute("greeting", "hi").unwrap();
    assert!(nix.build().contains("    greeting = ''hi'';\n"));
    let mut nix2 = NixBuilder::new();
    nix2.add_letvar_string("greeting", "hi").unwrap();
    assert!(nix2.build().contains("    greeting = ''hi'';\n"));
}

#[test]
fn comment_precedes_attribute() {
    let mut nix = NixBuilder::new();
    nix.add_expr_attribute_comment("FOO", "1", "a remark").unwrap();
    assert!(nix.build().contains("    # a remark\n    FOO = 1;\n"));
}

#[test]
fn multi_line_values_are_indented_per_line() {
    let mut nix = NixBuilder::new();
    nix.add_letvar_expr("xs", "[\n  1\n  2\n]").unwrap();
    let out = nix.build();
    assert!(out.contains("  let\n    xs = [\n      1\n      2\n    ];\n  in\n"));
}
