//! The version 3 label display rules, including the language map.

use tile_pyramid::iiif::manifest::{DE, EN, FR, NONE};
use tile_pyramid::iiif::manifest_v3::LabelText;
use tile_pyramid::iiif::one_or_many::OneOrMany;

fn entry(language: &str, values: &[&str]) -> (String, Vec<String>) {
    (
        language.to_string(),
        values.iter().map(|v| v.to_string()).collect(),
    )
}

#[test]
fn test_label_text_plain_text() {
    let label = LabelText::Text(OneOrMany::One("text".to_string()));

    assert_eq!(label.get(EN), vec!["text"]);
    assert_eq!(label.get(DE), vec!["text"]);
}

#[test]
fn test_label_text_plain_texts() {
    let label = LabelText::Text(OneOrMany::Many(vec![
        "text".to_string(),
        "test".to_string(),
    ]));

    assert_eq!(label.get(EN), vec!["text", "test"]);
    assert_eq!(label.get(DE), vec!["text", "test"]);
}

#[test]
fn test_label_text_map_with_none() {
    let label = LabelText::LanguageMap(vec![entry(NONE, &["text"])]);

    assert_eq!(label.get(DE), vec!["text"]);
    assert_eq!(label.get(EN), vec!["text"]);
}

#[test]
fn test_label_text_map_with_en_de() {
    let label = LabelText::LanguageMap(vec![entry(EN, &["text"]), entry(DE, &["de"])]);

    assert_eq!(label.get(EN), vec!["text"]);
    assert_eq!(label.get(DE), vec!["de"]);
    assert_eq!(label.get(FR), vec!["de"]);
}

#[test]
fn test_label_text_map_with_en_none() {
    let label = LabelText::LanguageMap(vec![
        entry(EN, &["text"]),
        entry(DE, &["de"]),
        entry(NONE, &["none"]),
    ]);

    assert_eq!(label.get(EN), vec!["text"]);
    assert_eq!(label.get(DE), vec!["de"]);
    assert_eq!(label.get(FR), vec!["none"]);
    assert_eq!(label.get(NONE), vec!["none"]);
}

#[test]
fn test_label_text_map_is_empty_without_entries() {
    let label = LabelText::LanguageMap(Vec::new());

    assert_eq!(label.get(EN), Vec::<String>::new());
}
