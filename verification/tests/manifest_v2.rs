//! The version 2 label display rules.

use tile_pyramid::iiif::manifest::{DE, EN, ZH};
use tile_pyramid::iiif::manifest_v2::{LabelText, LabelTextValue, LanguageValuePair};
use tile_pyramid::iiif::one_or_many::OneOrMany;

fn pair(language: &str, value: &str) -> LabelTextValue {
    LabelTextValue::LanguageValuePair(LanguageValuePair {
        language: language.to_string(),
        value: value.to_string(),
    })
}

#[test]
fn test_text_simple_one() {
    let text = LabelText(OneOrMany::One(LabelTextValue::SimpleText("Simple".to_string())));

    assert_eq!(text.get(EN).join(" "), "Simple");
}

#[test]
fn test_text_simple_many() {
    let text = LabelText(OneOrMany::Many(vec![
        LabelTextValue::SimpleText("Simple".to_string()),
        LabelTextValue::SimpleText("Text".to_string()),
    ]));

    assert_eq!(text.get(EN).join(" "), "Simple Text");
    assert_eq!(text.get(DE).join(" "), "Simple Text");
}

#[test]
fn test_text_language_value_one() {
    let text = LabelText(OneOrMany::One(pair(EN, "Simple")));

    assert_eq!(text.get(EN).join(" "), "Simple");
    assert_eq!(text.get(DE).join(" "), "Simple");
}

#[test]
fn test_text_language_value_many() {
    let text = LabelText(OneOrMany::Many(vec![pair(EN, "Simple"), pair(DE, "De")]));

    assert_eq!(text.get(EN).join(" "), "Simple");
    assert_eq!(text.get(DE).join(" "), "De");
    assert_eq!(text.get(ZH).join(" "), "Simple");
}

#[test]
fn test_text_language_value_many_with_no_language() {
    let text = LabelText(OneOrMany::Many(vec![
        LabelTextValue::SimpleText("Default".to_string()),
        pair(EN, "Simple"),
        pair(DE, "De"),
    ]));

    assert_eq!(text.get(EN).join(" "), "Simple");
    assert_eq!(text.get(DE).join(" "), "De");
    assert_eq!(text.get(ZH).join(" "), "Default");
}

#[test]
fn test_label_text_value_get_gives_plain_text_the_none_language() {
    let v = LabelTextValue::SimpleText("Plain".to_string());
    let p = v.get();

    assert_eq!(p.language, "none");
    assert_eq!(p.value, "Plain");
}
