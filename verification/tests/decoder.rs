use now_playing::decoder::{extract_from_metadata, title_and_artist, DecodeError};
use now_playing::value::Value;

fn text(s: &str) -> Value {
    Value::Text(s.to_string())
}

fn list(items: Vec<Value>) -> Value {
    Value::Sequence(items)
}

fn found(title: &str, artist: &str) -> Result<(String, String), DecodeError> {
    Ok((title.to_string(), artist.to_string()))
}

fn artists(name: &str) -> Value {
    list(vec![list(vec![list(vec![text(name)])])])
}

#[test]
fn title_and_artist_of_a_well_formed_bag() {
    let bag = list(vec![text("xesam:title"), text("Song"), text("xesam:artist"), artists("Artist")]);
    assert_eq!(extract_from_metadata(&bag), found("Song", "Artist"));
    assert_eq!(title_and_artist(&bag), ("Song".to_string(), "Artist".to_string()));
}

#[test]
fn the_order_of_the_keys_does_not_matter() {
    let bag = list(vec![text("xesam:artist"), artists("Artist"), text("xesam:title"), text("Song")]);
    assert_eq!(extract_from_metadata(&bag), found("Song", "Artist"));
}

#[test]
fn a_bag_without_artist_gives_the_title_alone() {
    let bag = list(vec![text("xesam:title"), text("Song")]);
    assert_eq!(extract_from_metadata(&bag), found("Song", ""));
}

#[test]
fn a_bag_without_title_gives_the_artist_alone() {
    let bag = list(vec![text("xesam:artist"), artists("Artist")]);
    assert_eq!(extract_from_metadata(&bag), found("", "Artist"));
}

#[test]
fn an_artist_nested_two_levels_deep_is_empty() {
    let shallow = list(vec![list(vec![text("Artist")])]);
    let bag = list(vec![text("xesam:title"), text("Song"), text("xesam:artist"), shallow]);
    assert_eq!(extract_from_metadata(&bag), found("Song", ""));
}

#[test]
fn an_artist_nested_one_level_deep_is_empty() {
    let bag = list(vec![
        text("xesam:title"),
        text("Song"),
        text("xesam:artist"),
        list(vec![text("Artist")]),
    ]);
    assert_eq!(extract_from_metadata(&bag), found("Song", ""));
}

#[test]
fn an_artist_that_is_plain_text_is_empty() {
    let bag = list(vec![text("xesam:title"), text("Song"), text("xesam:artist"), text("Artist")]);
    assert_eq!(extract_from_metadata(&bag), found("Song", ""));
}

#[test]
fn an_artist_nested_four_levels_deep_is_empty() {
    let deep = list(vec![artists("Artist")]);
    let bag = list(vec![text("xesam:title"), text("Song"), text("xesam:artist"), deep]);
    assert_eq!(extract_from_metadata(&bag), found("Song", ""));
}

#[test]
fn an_artist_with_an_empty_level_is_empty() {
    for broken in [
        list(vec![]),
        list(vec![list(vec![])]),
        list(vec![list(vec![list(vec![])])]),
    ] {
        let bag = list(vec![text("xesam:artist"), broken, text("xesam:title"), text("Song")]);
        assert_eq!(extract_from_metadata(&bag), found("Song", ""));
    }
}

#[test]
fn an_artist_that_is_no_text_at_the_bottom_is_empty() {
    let number = list(vec![list(vec![list(vec![Value::Integer(7)])])]);
    let bag = list(vec![text("xesam:title"), text("Song"), text("xesam:artist"), number]);
    assert_eq!(extract_from_metadata(&bag), found("Song", ""));
}

#[test]
fn the_first_item_is_taken_at_every_level() {
    let many = list(vec![
        list(vec![list(vec![text("A"), text("B")]), list(vec![text("C")])]),
        list(vec![list(vec![text("D")])]),
    ]);
    let bag = list(vec![text("xesam:artist"), many]);
    assert_eq!(extract_from_metadata(&bag), found("", "A"));
}

#[test]
fn a_title_that_is_no_text_is_empty_and_leaves_the_artist() {
    for broken in [Value::Integer(3), Value::Boolean(true), Value::Opaque, list(vec![text("Song")])] {
        let bag = list(vec![text("xesam:title"), broken, text("xesam:artist"), artists("Artist")]);
        assert_eq!(extract_from_metadata(&bag), found("", "Artist"));
    }
}

#[test]
fn other_keys_are_passed_over() {
    let bag = list(vec![
        text("mpris:length"),
        Value::Integer(354_000_000),
        text("xesam:title"),
        text("Song"),
        text("xesam:album"),
        text("Album"),
        text("xesam:artist"),
        artists("Artist"),
        text("xesam:Title"),
        text("Other"),
    ]);
    assert_eq!(extract_from_metadata(&bag), found("Song", "Artist"));
}

#[test]
fn keys_that_are_no_text_are_passed_over() {
    let bag = list(vec![
        Value::Integer(1),
        text("One"),
        list(vec![text("xesam:title")]),
        text("Nested"),
        Value::Opaque,
        Value::Opaque,
        text("xesam:title"),
        text("Song"),
    ]);
    assert_eq!(extract_from_metadata(&bag), found("Song", ""));
}

#[test]
fn the_last_occurrence_of_a_key_counts() {
    let bag = list(vec![
        text("xesam:title"),
        text("First"),
        text("xesam:artist"),
        artists("One"),
        text("xesam:title"),
        text("Second"),
        text("xesam:artist"),
        artists("Two"),
    ]);
    assert_eq!(extract_from_metadata(&bag), found("Second", "Two"));
}

#[test]
fn a_later_malformed_occurrence_empties_the_field() {
    let bag = list(vec![
        text("xesam:title"),
        text("First"),
        text("xesam:artist"),
        artists("One"),
        text("xesam:title"),
        Value::Integer(2),
        text("xesam:artist"),
        text("Two"),
    ]);
    assert_eq!(extract_from_metadata(&bag), found("", ""));
}

#[test]
fn a_value_is_not_taken_for_a_key() {
    let bag = list(vec![text("note"), text("xesam:title"), text("Song"), text("xesam:artist")]);
    assert_eq!(extract_from_metadata(&bag), found("", ""));
}

#[test]
fn an_empty_bag_gives_empty_fields() {
    assert_eq!(extract_from_metadata(&list(vec![])), found("", ""));
}

#[test]
fn a_value_that_is_no_container_is_refused() {
    for scalar in [text("xesam:title"), Value::Integer(0), Value::Boolean(false), Value::Opaque] {
        assert_eq!(extract_from_metadata(&scalar), Err(DecodeError::NotASequence));
        assert_eq!(title_and_artist(&scalar), (String::new(), String::new()));
    }
}

#[test]
fn a_bag_with_a_key_without_value_is_refused() {
    let one = list(vec![text("xesam:title")]);
    assert_eq!(extract_from_metadata(&one), Err(DecodeError::DanglingKey));
    let three = list(vec![text("xesam:title"), text("Song"), text("xesam:artist")]);
    assert_eq!(extract_from_metadata(&three), Err(DecodeError::DanglingKey));
    assert_eq!(title_and_artist(&three), (String::new(), String::new()));
}

#[test]
fn typed_accessors_answer_for_their_own_variant_only() {
    let word = text("word");
    assert_eq!(word.as_text(), Some(&"word".to_string()));
    assert_eq!(word.as_sequence(), None);
    assert_eq!(word.first(), None);
    let items = list(vec![Value::Integer(1), text("two")]);
    assert_eq!(items.as_text(), None);
    assert_eq!(items.as_sequence(), Some(&vec![Value::Integer(1), text("two")]));
    assert_eq!(items.first(), Some(&Value::Integer(1)));
    assert_eq!(list(vec![]).first(), None);
    for other in [Value::Integer(1), Value::Boolean(true), Value::Opaque] {
        assert_eq!(other.as_text(), None);
        assert_eq!(other.as_sequence(), None);
        assert_eq!(other.first(), None);
    }
}
