use app_lib::brand::{
    app_data_dir_identifier, data_dir_identifier, user_agent, BUNDLE_IDENTIFIER, DEEP_LINK_SCHEME,
    MAX_DATA_DIR_SUFFIX_LEN, PRODUCT_NAME, SHORT_PRODUCT_NAME, WEBSITE,
};

#[test]
fn user_agent_is_unique_and_contains_no_contact_information() {
    let user_agent = user_agent("1.2.3", "windows");

    assert_eq!(user_agent, "garbage-human-studio/axolotl/1.2.3 (windows)");
    assert!(!user_agent.contains("ghs.red"));
    assert!(!user_agent.contains("http"));
    assert!(!user_agent.contains('@'));
}

#[test]
fn data_dir_identifier_without_suffix_keeps_the_identifier() {
    assert_eq!(data_dir_identifier("red.ghs.axolotl", None), "red.ghs.axolotl");
}

#[test]
fn data_dir_identifier_appends_a_readable_suffix() {
    for (suffix, expected) in [
        ("pr538", "red.ghs.axolotl-pr538"),
        ("fix_issue_538", "red.ghs.axolotl-fix_issue_538"),
        ("v1.2.3", "red.ghs.axolotl-v1.2.3"),
    ] {
        assert_eq!(
            data_dir_identifier("red.ghs.axolotl", Some(suffix)),
            expected,
            "unexpected identifier for suffix {suffix:?}"
        );
    }
}

#[test]
fn data_dir_identifier_never_escapes_the_data_directory() {
    for suffix in ["../evil", "..\\evil", "a/b", "a\\b", "..", "/", "\\"] {
        let identifier = data_dir_identifier("red.ghs.axolotl", Some(suffix));

        assert!(
            !identifier.contains('/') && !identifier.contains('\\'),
            "suffix {suffix:?} produced a path separator in {identifier:?}"
        );
        assert!(
            !identifier.contains(".."),
            "suffix {suffix:?} produced a parent reference in {identifier:?}"
        );
        assert!(
            identifier.starts_with("red.ghs.axolotl"),
            "suffix {suffix:?} lost the identifier prefix"
        );
    }
}

#[test]
fn data_dir_identifier_ignores_unusable_suffixes() {
    for suffix in ["", "   ", "..", "--", "///", "..-.-"] {
        assert_eq!(
            data_dir_identifier("red.ghs.axolotl", Some(suffix)),
            "red.ghs.axolotl",
            "suffix {suffix:?} should have been ignored"
        );
    }
}

#[test]
fn data_dir_identifier_bounds_the_suffix_length() {
    let identifier = data_dir_identifier("red.ghs.axolotl", Some(&"a".repeat(200)));

    assert_eq!(
        identifier,
        format!("red.ghs.axolotl-{}", "a".repeat(MAX_DATA_DIR_SUFFIX_LEN))
    );
}

#[test]
fn data_dir_identifier_trims_edge_dots_and_dashes_after_bounding() {
    // The bound applies before trimming: 31 letters and a dash, then more.
    let suffix = format!("{}-{}", "b".repeat(31), "c".repeat(10));
    assert_eq!(
        data_dir_identifier("base", Some(&suffix)),
        format!("base-{}", "b".repeat(31))
    );
    assert_eq!(data_dir_identifier("base", Some("--.x.y--")), "base-x.y");
    assert_eq!(data_dir_identifier("base", Some("é/ü x")), "base-x");
}

#[test]
fn app_data_dir_identifier_uses_the_build_suffix() {
    assert_eq!(app_data_dir_identifier("red.ghs.axolotl", None), "red.ghs.axolotl");
    assert_eq!(
        app_data_dir_identifier("red.ghs.axolotl", Some("dev")),
        "red.ghs.axolotl-dev"
    );
}

#[test]
fn release_builds_use_the_bundle_identifier() {
    assert_eq!(app_data_dir_identifier(BUNDLE_IDENTIFIER, None), "red.ghs.axolotl");
    assert!(PRODUCT_NAME.starts_with(SHORT_PRODUCT_NAME));
    assert!(WEBSITE.ends_with("ghs.red"));
    assert_eq!(DEEP_LINK_SCHEME, "axolotl");
}
