//! One-or-many lists seen as plain sequences.

use tile_pyramid::iiif::one_or_many::OneOrMany;

#[test]
fn test_one_type_or_many_into_iter() {
    let test_string = "test";

    let test_data: OneOrMany<String, String> = OneOrMany::One(test_string.to_string());

    let actual: Vec<&String> = test_data.iter();
    assert_eq!(actual, vec![test_string]);

    let actual: Vec<String> = test_data.into_iter();
    assert_eq!(actual, vec![test_string]);

    let test_data: OneOrMany<String, String> =
        OneOrMany::Many(vec![test_string.to_string(), test_string.to_string()]);

    let actual: Vec<&String> = test_data.iter();
    assert_eq!(actual, vec![test_string, test_string]);

    let actual: Vec<String> = test_data.into_iter();
    assert_eq!(actual, vec![test_string, test_string]);
}
