use slang::extract::{escape_regex, regexes, slang_extractor_config, Pattern};

#[test]
fn escape_marks_metacharacters() {
    assert_eq!(escape_regex("a.b*c"), "a\\.b\\*c");
    assert_eq!(escape_regex("c++17"), "c\\+\\+17");
    assert_eq!(escape_regex("plain_name"), "plain_name");
    assert_eq!(escape_regex(""), "");
}

#[test]
fn prefix_and_exact_regexes() {
    assert_eq!(Pattern::Prefix("foo_".to_string()).to_regex(), "foo_.*");
    assert_eq!(Pattern::Exact("PathKind".to_string()).to_regex(), "PathKind");
    assert_eq!(Pattern::Exact("a.b".to_string()).to_regex(), "a\\.b");
}

#[test]
fn slang_allow_list() {
    let config = slang_extractor_config();
    assert_eq!(config.header, "vendor/slang/include/slang.h");
    assert_eq!(config.clang_args, vec!["-I./vendor/slang", "-xc++", "-std=c++17"]);
    assert_eq!(regexes(&config.functions), vec!["slang_.*"]);
    assert_eq!(
        regexes(&config.types),
        vec!["slang.*", "FileSystemContentsCallBack", "PathKind"]
    );
    assert_eq!(regexes(&config.vars), vec!["SLANG_.*"]);
    assert!(config.emit_functions && config.emit_types && config.emit_vars);
    assert!(!config.layout_tests);
    assert!(config.vtable_generation);
    assert!(config.derive_copy);
    assert_eq!(config.output_file, "gen/bindings.rs");
}

#[test]
fn configuration_is_the_same_on_every_call() {
    let a = slang_extractor_config();
    let b = slang_extractor_config();
    assert_eq!(a.header, b.header);
    assert_eq!(a.clang_args, b.clang_args);
    assert_eq!(regexes(&a.functions), regexes(&b.functions));
    assert_eq!(regexes(&a.types), regexes(&b.types));
    assert_eq!(regexes(&a.vars), regexes(&b.vars));
    assert_eq!(a.output_file, b.output_file);
}
