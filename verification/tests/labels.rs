use flakehub_push::labels::merge_labels;

fn strings(v: &[&str]) -> Vec<String> {
    v.iter().map(|s| s.to_string()).collect()
}

fn sorted(mut v: Vec<String>) -> Vec<String> {
    v.sort();
    v
}

#[test]
fn merges_and_normalizes() {
    let (labels, warnings) = merge_labels(
        &strings(&[" Rust ", "nix"]),
        &strings(&[]),
        &strings(&["CLI", "nix"]),
    );
    assert_eq!(
        sorted(labels),
        sorted(strings(&["rust", "nix", "cli"]))
    );
    assert!(!warnings.deprecated_tags_used);
    assert!(!warnings.both_sources_set);
}

#[test]
fn drops_invalid_characters_and_long_labels() {
    let long = "a".repeat(51);
    let exactly_fifty = "b".repeat(50);
    let (labels, _) = merge_labels(
        &strings(&["ok-label", "has space", "und_erscore", "uni\u{e9}code", &long, &exactly_fifty]),
        &strings(&[]),
        &strings(&[]),
    );
    assert_eq!(
        sorted(labels),
        sorted(vec!["ok-label".to_string(), exactly_fifty])
    );
}

#[test]
fn caps_at_twenty_five() {
    let many: Vec<String> = (0..30).map(|i| format!("label-{i}")).collect();
    let (labels, _) = merge_labels(&many, &strings(&[]), &strings(&[]));
    assert_eq!(labels.len(), 25);
}

#[test]
fn deprecated_tags_stand_in_for_absent_labels() {
    let (labels, warnings) = merge_labels(
        &strings(&[]),
        &strings(&["legacy"]),
        &strings(&[]),
    );
    assert_eq!(labels, strings(&["legacy"]));
    assert!(warnings.deprecated_tags_used);
    assert!(!warnings.both_sources_set);
}

#[test]
fn deprecated_tags_ignored_when_labels_present() {
    let (labels, warnings) = merge_labels(
        &strings(&["fresh"]),
        &strings(&["legacy"]),
        &strings(&[]),
    );
    assert_eq!(labels, strings(&["fresh"]));
    assert!(warnings.deprecated_tags_used);
    assert!(warnings.both_sources_set);
}

#[test]
fn empty_labels_are_dropped_before_choosing_source() {
    // Explicit labels that are all empty count as absent.
    let (labels, warnings) = merge_labels(
        &strings(&["", ""]),
        &strings(&["legacy"]),
        &strings(&[]),
    );
    assert_eq!(labels, strings(&["legacy"]));
    assert!(warnings.deprecated_tags_used);
    assert!(!warnings.both_sources_set);
}

#[test]
fn duplicates_collapse() {
    let (labels, _) = merge_labels(
        &strings(&["dup", "dup", "other"]),
        &strings(&[]),
        &strings(&["dup"]),
    );
    assert_eq!(sorted(labels), sorted(strings(&["dup", "other"])));
}

#[test]
fn merge_is_idempotent_on_its_own_output() {
    // Case-sensitive deduplication happens before lowercasing, so the
    // first merge may itself emit the same lowercased label twice; the
    // guarantee is about the resulting set.
    let (once, _) = merge_labels(
        &strings(&[" Rust ", "NIX", "dup", "dup", "bad label!", "flakes"]),
        &strings(&[]),
        &strings(&["CLI", "nix", "tooling"]),
    );
    let (twice, _) = merge_labels(&once, &strings(&[]), &once);
    let mut once_set = sorted(once);
    once_set.dedup();
    let mut twice_set = sorted(twice);
    twice_set.dedup();
    assert_eq!(once_set, twice_set);
}
