use guideline_directives::catalog::{default_registry, render_guidelines};
use guideline_directives::emitter::{render_registry, RenderError};
use guideline_directives::registry::{GuidelineEntry, Registry, Tier};

fn entry(id: &str, tier: Tier, name: &str, enabled: bool, note: &str) -> GuidelineEntry {
    GuidelineEntry {
        id: id.to_string(),
        tier,
        directive_name: name.to_string(),
        enabled,
        rationale_note: note.to_string(),
    }
}

#[test]
fn empty_registry_renders_empty_block() {
    let reg = Registry::new(Vec::new());
    let block = render_registry(&reg).unwrap();
    assert_eq!(block.as_str(), "");
}

#[test]
fn duplicate_id_fails_with_duplicate_guideline() {
    let reg = Registry::new(vec![
        entry("G.A", Tier::Required, "no_foo", true, ""),
        entry("G.A", Tier::Optional, "no_bar", true, ""),
    ]);
    let res = render_registry(&reg);
    assert!(matches!(res, Err(RenderError::DuplicateGuideline)));
}

#[test]
fn empty_id_fails_with_malformed_guideline() {
    let reg = Registry::new(vec![entry("", Tier::Required, "no_foo", true, "")]);
    let res = render_registry(&reg);
    assert!(matches!(res, Err(RenderError::MalformedGuideline)));
}

#[test]
fn empty_directive_name_fails_with_malformed_guideline() {
    let reg = Registry::new(vec![entry("G.A", Tier::Recommended, "", true, "a note")]);
    let res = render_registry(&reg);
    assert!(matches!(res, Err(RenderError::MalformedGuideline)));
}

#[test]
fn malformed_takes_precedence_over_duplicate() {
    let reg = Registry::new(vec![
        entry("G.A", Tier::Required, "no_foo", true, ""),
        entry("G.A", Tier::Required, "", true, ""),
    ]);
    let res = render_registry(&reg);
    assert!(matches!(res, Err(RenderError::MalformedGuideline)));
}

#[test]
fn end_to_end_required_then_optional() {
    let reg = Registry::new(vec![
        entry("G.A", Tier::Required, "no_foo", true, ""),
        entry("G.B", Tier::Optional, "no_bar", true, ""),
    ]);
    let block = render_registry(&reg).unwrap();
    let expected = "// [REQUIRED] G.A\n#![deny(no_foo)]\n// [OPTIONAL] G.B\n// #![warn(no_bar)]\n";
    assert_eq!(block.as_str(), expected);
}

#[test]
fn rationale_note_joins_annotation_with_a_space() {
    let reg = Registry::new(vec![entry(
        "G.N",
        Tier::Recommended,
        "no_foo",
        true,
        "prefer the other thing",
    )]);
    let block = render_registry(&reg).unwrap();
    assert_eq!(
        block.as_str(),
        "// [RECOMMENDED] G.N prefer the other thing\n#![warn(no_foo)]\n"
    );
}

#[test]
fn rendering_twice_is_byte_identical() {
    let make = || {
        Registry::new(vec![
            entry("G.A", Tier::Required, "no_foo", true, "a note"),
            entry("G.B", Tier::Recommended, "no_bar", false, ""),
            entry("G.C", Tier::Optional, "no_baz", true, "another note"),
        ])
    };
    let first = render_registry(&make()).unwrap().into_string();
    let second = render_registry(&make()).unwrap().into_string();
    assert_eq!(first.as_bytes(), second.as_bytes());
}

#[test]
fn render_guidelines_is_byte_identical_across_calls() {
    let first = render_guidelines().into_string();
    let second = render_guidelines().into_string();
    assert_eq!(first.as_bytes(), second.as_bytes());
}

#[test]
fn hard_fail_names_are_exactly_the_enabled_required_names() {
    let reg = Registry::new(vec![
        entry("G.A", Tier::Required, "no_foo", true, ""),
        entry("G.B", Tier::Recommended, "no_bar", true, ""),
        entry("G.C", Tier::Required, "no_baz", false, ""),
        entry("G.D", Tier::Optional, "no_qux", true, ""),
        entry("G.E", Tier::Required, "no_quux", true, ""),
    ]);
    let block = render_registry(&reg).unwrap();
    let mut deny_names: Vec<String> = Vec::new();
    for line in block.as_str().lines() {
        if let Some(rest) = line.strip_prefix("#![deny(") {
            assert!(rest.ends_with(")]"));
            deny_names.push(rest[..rest.len() - 2].to_string());
        }
    }
    deny_names.sort();
    assert_eq!(deny_names, vec!["no_foo".to_string(), "no_quux".to_string()]);
}

#[test]
fn optional_entries_appear_commented_never_active() {
    let reg = Registry::new(vec![
        entry("G.A", Tier::Optional, "no_foo", true, ""),
        entry("G.B", Tier::Optional, "no_bar", false, ""),
    ]);
    let block = render_registry(&reg).unwrap();
    let text = block.as_str();
    assert!(text.contains("// #![warn(no_foo)]"));
    assert!(text.contains("// #![warn(no_bar)]"));
    for line in text.lines() {
        assert!(!line.starts_with("#!["));
    }
}

#[test]
fn disabled_required_and_recommended_appear_commented() {
    let reg = Registry::new(vec![
        entry("G.A", Tier::Required, "no_foo", false, ""),
        entry("G.B", Tier::Recommended, "no_bar", false, ""),
    ]);
    let block = render_registry(&reg).unwrap();
    let text = block.as_str();
    assert!(text.contains("// #![deny(no_foo)]"));
    assert!(text.contains("// #![warn(no_bar)]"));
    for line in text.lines() {
        assert!(!line.starts_with("#!["));
    }
}

#[test]
fn entries_render_in_registry_order() {
    let reg = Registry::new(vec![
        entry("G.Z", Tier::Recommended, "last_first", true, ""),
        entry("G.A", Tier::Recommended, "first_last", true, ""),
    ]);
    let block = render_registry(&reg).unwrap();
    let text = block.as_str();
    let z = text.find("G.Z").unwrap();
    let a = text.find("G.A").unwrap();
    assert!(z < a);
}

#[test]
fn default_catalog_is_well_formed_and_renders() {
    let reg = default_registry();
    assert_eq!(reg.len(), 47);
    let block = render_registry(&reg).unwrap();
    assert_eq!(block.as_str(), render_guidelines().as_str());
}

#[test]
fn default_catalog_renders_expected_fragments() {
    let block = render_guidelines();
    let text = block.as_str();
    assert!(text.starts_with(
        "// [REQUIRED] G.VAR.02 Do not use non-ASCII characters in identifiers\n#![deny(non_ascii_idents)]\n"
    ));
    assert!(text.contains("#![deny(clippy::cast_sign_loss)]"));
    assert!(text.contains(
        "// [OPTIONAL] G.CMT.01 Add Error documentation in the docs of public functions that return Result\n// #![warn(clippy::missing_errors_doc)]\n"
    ));
    assert!(text.contains("#![warn(clippy::unwrap_used)]"));
    assert!(text.contains("// [REQUIRED] G.CLP.01\n// #![deny(clippy::disallowed_names)]\n"));
    for line in text.lines() {
        assert!(line.starts_with("// ") || line.starts_with("#!["));
    }
}

#[test]
fn default_catalog_hard_fail_names_are_required_enabled() {
    let block = render_guidelines();
    let mut deny_count = 0;
    for line in block.as_str().lines() {
        if line.starts_with("#![deny(") {
            deny_count += 1;
        }
    }
    // the enabled REQUIRED rows of the fixed catalog
    assert_eq!(deny_count, 15);
}
