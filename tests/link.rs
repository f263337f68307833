use slang::link::{
    dynamic_directives, join_path, render, static_build_request, static_directives, Directive,
    LibKind, LinkConfig, LinkError, LinkStrategy, TargetOs, INSTALL_DIR_VAR, LIBRARY_NAME,
};

fn lines(ds: &Vec<Directive>) -> Vec<String> {
    render(ds)
}

#[test]
fn join_inserts_one_separator() {
    assert_eq!(join_path("a", "b"), "a/b");
    assert_eq!(join_path("a/", "b"), "a/b");
    assert_eq!(join_path("C:\\slang\\", "bin"), "C:\\slang\\bin");
    assert_eq!(join_path("", "b"), "b");
}

#[test]
fn static_release_layout() {
    let ds = static_directives(Some("/work/out"), "release").unwrap();
    assert_eq!(
        ds,
        vec![
            Directive::SearchNative("/work/out/build/release/lib".to_string()),
            Directive::Link(LibKind::Static, "slang".to_string()),
        ]
    );
    assert_eq!(
        lines(&ds),
        vec![
            "cargo:rustc-link-search=native=/work/out/build/release/lib".to_string(),
            "cargo:rustc-link-lib=static=slang".to_string(),
        ]
    );
    let static_links = ds
        .iter()
        .filter(|d| matches!(d, Directive::Link(LibKind::Static, _)))
        .count();
    assert_eq!(static_links, 1);
}

#[test]
fn static_profile_is_not_fixed() {
    let ds = static_directives(Some("/work/out"), "debug").unwrap();
    assert_eq!(ds[0], Directive::SearchNative("/work/out/build/debug/lib".to_string()));
}

#[test]
fn static_non_utf8_root_fails() {
    assert_eq!(static_directives(None, "release"), Err(LinkError::NonUtf8BuildRoot));
}

#[test]
fn windows_without_install_dir_fails() {
    assert_eq!(
        dynamic_directives(TargetOs::Windows, None),
        Err(LinkError::MissingInstallDir)
    );
    let message = LinkError::MissingInstallDir.message();
    assert!(message.contains(INSTALL_DIR_VAR));
}

#[test]
fn windows_with_install_dir_searches_bin_and_lib() {
    let ds = dynamic_directives(TargetOs::Windows, Some("C:/slang")).unwrap();
    assert_eq!(
        lines(&ds),
        vec![
            "cargo:rustc-link-search=native=C:/slang/bin".to_string(),
            "cargo:rustc-link-search=native=C:/slang/lib".to_string(),
            "cargo:rustc-link-lib=static=slang".to_string(),
        ]
    );
    let searches = ds.iter().filter(|d| matches!(d, Directive::SearchNative(_))).count();
    let links = ds.iter().filter(|d| matches!(d, Directive::Link(_, _))).count();
    assert_eq!(searches, 2);
    assert_eq!(links, 1);
}

#[test]
fn linux_and_macos_use_the_dynamic_linker() {
    let linux = dynamic_directives(TargetOs::Linux, None).unwrap();
    assert_eq!(lines(&linux), vec!["cargo:rustc-link-lib=slang".to_string()]);
    let mac = dynamic_directives(TargetOs::MacOs, Some("/ignored")).unwrap();
    assert_eq!(lines(&mac), vec!["cargo:rustc-link-lib=dylib=slang".to_string()]);
    assert_eq!(dynamic_directives(TargetOs::Other, None), Ok(vec![]));
}

#[test]
fn strategy_selection() {
    let config = |static_build, target_os| LinkConfig {
        static_build,
        target_os,
        install_dir: None,
    };
    assert_eq!(config(true, TargetOs::Linux).strategy(), Some(LinkStrategy::StaticVendored));
    assert_eq!(config(true, TargetOs::Other).strategy(), Some(LinkStrategy::StaticVendored));
    assert_eq!(
        config(false, TargetOs::Windows).strategy(),
        Some(LinkStrategy::DynamicWindowsStyle)
    );
    assert_eq!(config(false, TargetOs::Linux).strategy(), Some(LinkStrategy::DynamicUnixStyle));
    assert_eq!(config(false, TargetOs::MacOs).strategy(), Some(LinkStrategy::DynamicMacStyle));
    assert_eq!(config(false, TargetOs::Other).strategy(), None);
}

#[test]
fn config_passes_install_dir_on() {
    let set = LinkConfig {
        static_build: false,
        target_os: TargetOs::Windows,
        install_dir: Some("D:\\sdk".to_string()),
    };
    let ds = set.dynamic_link_directives().unwrap();
    assert_eq!(ds[0], Directive::SearchNative("D:\\sdk/bin".to_string()));
    let unset = LinkConfig {
        install_dir: None,
        ..set
    };
    assert_eq!(unset.dynamic_link_directives(), Err(LinkError::MissingInstallDir));
}

#[test]
fn static_request_builds_only_the_library() {
    let request = static_build_request();
    assert_eq!(request.source_dir, "vendor/slang");
    assert_eq!(request.target, LIBRARY_NAME);
    assert_eq!(
        request.defines,
        vec![("SLANG_LIB_TYPE".to_string(), "STATIC".to_string())]
    );
}

#[test]
fn error_messages() {
    assert_eq!(
        LinkError::MissingInstallDir.message(),
        "Please provide an environment variable `SLANG_DIR` that points to your slang installation."
    );
    assert!(LinkError::NonUtf8BuildRoot.message().contains("UTF-8"));
}
