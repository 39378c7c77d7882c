//! Path and identifier hints read out of free text.

use shared_context::{
    camel_case_segments, derived_hint_terms, derived_path_stems, json_string_leaves,
    normalized_identifiers, scan_text, scan_texts, JsonValue, PathCandidate,
};

#[test]
fn extracts_path_with_line_span() {
    let scan = scan_text("see ProductAnchorAssem.kt:202 for the early return");
    assert_eq!(scan.paths.len(), 1);
    assert_eq!(scan.paths[0].path, "ProductAnchorAssem.kt");
    assert_eq!(scan.paths[0].basename, "ProductAnchorAssem.kt");
    assert!(!scan.paths[0].has_directory);
    assert_eq!(scan.paths[0].line_span.as_deref(), Some(":202"));
    assert_eq!(scan.paths[0].stem(), "ProductAnchorAssem");
    assert_eq!(scan.paths[0].hint_text(), "ProductAnchorAssem.kt:202");
}

#[test]
fn extracts_directory_path_and_range_span() {
    let scan = scan_text("app/src/main/kotlin/poi/PoiEntranceAssem.kt:118-140 registers early");
    assert_eq!(
        scan.paths[0].path,
        "app/src/main/kotlin/poi/PoiEntranceAssem.kt"
    );
    assert!(scan.paths[0].has_directory);
    assert_eq!(scan.paths[0].line_span.as_deref(), Some(":118-140"));
}

#[test]
fn ignores_unsupported_extension_and_all_caps_identifiers() {
    let scan = scan_text("build.log:512 reported BUILD SUCCESSFUL for POI_ENTRY and HEAD");
    assert!(scan.paths.is_empty());
    assert!(scan.identifiers.is_empty());
}

#[test]
fn extracts_camel_case_and_snake_case_identifiers() {
    let scan = scan_text("ILiveEntryService.addParamsForLiveAnchor and enter_from_value");
    assert!(scan.identifiers.contains(&"ILiveEntryService".to_owned()));
    assert!(
        scan.identifiers
            .contains(&"addParamsForLiveAnchor".to_owned())
    );
    assert!(scan.identifiers.contains(&"enter_from_value".to_owned()));
}

#[test]
fn camel_case_segment_counting_splits_acronym_prefix() {
    assert_eq!(camel_case_segments("ILiveEntryService"), 4);
    assert_eq!(camel_case_segments("canShow"), 2);
    assert_eq!(camel_case_segments("Dummy"), 1);
}

#[test]
fn hint_terms_keep_the_basename_stem_and_directory_spelling() {
    let terms = derived_hint_terms(&[
        "app/src/main/kotlin/anchor/SearchProductAnchorAssem.kt:202 returns early",
        "ISearchLiveEntryService has no implementation",
    ]);
    assert!(terms.contains(&"SearchProductAnchorAssem".to_owned()));
    assert!(terms.contains(&"SearchProductAnchorAssem.kt".to_owned()));
    assert!(
        terms.contains(&"app/src/main/kotlin/anchor/SearchProductAnchorAssem.kt".to_owned())
    );
    assert!(terms.contains(&"ISearchLiveEntryService".to_owned()));
    assert!(
        terms.iter().all(|term| !term.contains(':')),
        "line spans are not retrieval terms: {terms:?}"
    );
}

#[test]
fn normalized_identifiers_fold_case_and_include_path_stems() {
    let identifiers = normalized_identifiers(&[
        "当 ISearchLiveEntryService 无实现时 SearchProductAnchorAssem.kt:202 提前 return",
    ]);
    assert!(identifiers.contains(&"isearchliveentryservice".to_owned()));
    assert!(identifiers.contains(&"searchproductanchorassem".to_owned()));
}

#[test]
fn path_candidate_defaults_stay_usable() {
    let candidate = PathCandidate {
        path: "Alpha.kt".to_owned(),
        basename: "Alpha.kt".to_owned(),
        has_directory: false,
        absolute: false,
        line_span: None,
    };
    assert_eq!(candidate.hint_text(), "Alpha.kt");
    assert_eq!(candidate.stem(), "Alpha");
}

/// Front-end and document spellings read as paths, not as prose.
#[test]
fn front_end_and_document_extensions_from_the_real_corpus_read_as_paths() {
    for (text, path, stem) in [
        (
            "subspaces/search/libs/search-components/src/text-badge/index.lepus imports it",
            "subspaces/search/libs/search-components/src/text-badge/index.lepus",
            "index",
        ),
        (
            "living-card/live-card-info.ttml renders the badge",
            "living-card/live-card-info.ttml",
            "live-card-info",
        ),
        (
            "user-avatar/index.ttss sizes it",
            "user-avatar/index.ttss",
            "index",
        ),
        (
            "search-atom-style/style/color.scss holds the token",
            "search-atom-style/style/color.scss",
            "color",
        ),
        (
            "scripts/live-tag.test.cjs covers it",
            "scripts/live-tag.test.cjs",
            "live-tag.test",
        ),
        (
            "poi/docs/x-ttk-map-view/protocol.md states the contract",
            "poi/docs/x-ttk-map-view/protocol.md",
            "protocol",
        ),
    ] {
        let scan = scan_text(text);
        assert_eq!(scan.paths.len(), 1, "{text}");
        assert_eq!(scan.paths[0].path, path);
        assert_eq!(scan.paths[0].stem(), stem);
        assert!(!scan.paths[0].absolute, "{text}");
    }
}

/// None of `live`, `tag`, `lepus` clears the identifier gate on its own.
#[test]
fn a_lepus_spelling_now_contributes_the_terms_it_used_to_lose() {
    let terms = derived_hint_terms(&["live-tag.lepus went stale"]);
    assert!(terms.contains(&"live-tag.lepus".to_owned()), "{terms:?}");
    assert!(terms.contains(&"live-tag".to_owned()), "{terms:?}");
}

#[test]
fn a_host_absolute_spelling_is_marked_even_though_its_path_is_stored_relative() {
    let scan = scan_text("/private/tmp/x-ttk-map-view-notes.md holds the transcript");
    assert_eq!(scan.paths.len(), 1);
    assert!(scan.paths[0].absolute);
    assert_eq!(scan.paths[0].path, "private/tmp/x-ttk-map-view-notes.md");
    let home = scan_text("~/.agents/skills/shared-context/references/workflow.md says so");
    assert!(home.paths[0].absolute, "{:?}", home.paths);
    let inside = scan_text("components/business/poi/build.yaml lists it");
    assert!(!inside.paths[0].absolute);
}

#[test]
fn scanning_several_texts_keeps_the_order_of_their_spellings() {
    let scan = scan_texts(&["src/Alpha.kt:3 and fooBar", "src/Beta.kt and fooBar"]);
    let paths = scan.paths.iter().map(PathCandidate::hint_text).collect::<Vec<_>>();
    assert_eq!(paths, ["src/Alpha.kt:3", "src/Beta.kt"]);
    assert_eq!(scan.identifiers, ["fooBar", "fooBar"]);
}

#[test]
fn a_dot_that_begins_a_path_component_is_kept() {
    let scan = scan_text(".github/workflows/ci.yml fails");
    assert_eq!(scan.paths.len(), 1);
    assert_eq!(scan.paths[0].path, ".github/workflows/ci.yml");
    assert_eq!(scan.paths[0].basename, "ci.yml");
    assert!(scan.paths[0].has_directory);
    assert!(!scan.paths[0].absolute);
    let home = scan_text("~/.agents/skills/workflow.md.");
    assert_eq!(home.paths[0].path, ".agents/skills/workflow.md");
    assert!(home.paths[0].absolute);
    let dotted = scan_text("./src/Main.kt and ../shared/Other.kt");
    assert_eq!(dotted.paths[0].path, "./src/Main.kt");
    assert_eq!(dotted.paths[1].path, "../shared/Other.kt");
    for (text, basename) in [
        ("...ProductAnchorAssem.kt", "ProductAnchorAssem.kt"),
        (".FooBar.kt", "FooBar.kt"),
        ("./FooBar.kt", "FooBar.kt"),
        ("../FooBar.kt", "FooBar.kt"),
    ] {
        let scan = scan_text(text);
        assert_eq!(scan.paths[0].path, basename);
        assert_eq!(scan.paths[0].basename, basename);
        assert!(!scan.paths[0].has_directory);
        let stem = basename.strip_suffix(".kt").unwrap();
        assert_eq!(derived_path_stems(&[text]), [stem]);
        assert_eq!(derived_hint_terms(&[text]), [stem, basename]);
        assert!(normalized_identifiers(&[text]).contains(&stem.to_lowercase()));
    }
    assert_eq!(scan_text("...src/Main.kt").paths[0].path, "src/Main.kt");
    assert_eq!(scan_text(".../src/Main.kt").paths[0].path, "src/Main.kt");
    let hidden = scan_text("config/.settings.json is read");
    assert!(hidden.paths.is_empty());
    let listed = scan_text("--Main.kt-");
    assert_eq!(listed.paths[0].path, "Main.kt");
}

#[test]
fn path_stems_come_without_their_extension() {
    let stems = derived_path_stems(&["src/SearchAnchor.kt:3 calls it"]);
    assert!(stems.contains(&"SearchAnchor".to_owned()), "{stems:?}");
}

#[test]
fn json_leaves_are_the_strings_in_document_order() {
    let value = JsonValue::Object(vec![
        ("a".to_owned(), JsonValue::Text("one".to_owned())),
        (
            "b".to_owned(),
            JsonValue::Array(vec![
                JsonValue::Null,
                JsonValue::Bool(true),
                JsonValue::Number("7".to_owned()),
                JsonValue::Text("two".to_owned()),
            ]),
        ),
    ]);
    let mut leaves = vec!["zero".to_owned()];
    json_string_leaves(&value, &mut leaves);
    assert_eq!(leaves, vec!["zero".to_owned(), "one".to_owned(), "two".to_owned()]);
}
