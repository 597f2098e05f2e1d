use image_resolution_finder::format::DataFormat;
use image_resolution_finder::image_preference::ImagePreference;

#[test]
fn preference_parses_known_words() {
    assert_eq!(ImagePreference::parse("wide"), Some(ImagePreference::Wide));
    assert_eq!(ImagePreference::parse("tall"), Some(ImagePreference::Tall));
    assert_eq!(
        ImagePreference::parse("none"),
        Some(ImagePreference::NoPreference)
    );
    assert_eq!(
        ImagePreference::parse("nothing"),
        Some(ImagePreference::NoPreference)
    );
    assert_eq!(
        ImagePreference::parse("nil"),
        Some(ImagePreference::NoPreference)
    );
    assert_eq!(
        ImagePreference::parse("null"),
        Some(ImagePreference::NoPreference)
    );
    assert_eq!(
        ImagePreference::parse("nul"),
        Some(ImagePreference::NoPreference)
    );
    assert_eq!(
        ImagePreference::parse(""),
        Some(ImagePreference::NoPreference)
    );
}

#[test]
fn preference_parsing_ignores_case_and_whitespace() {
    assert_eq!(ImagePreference::parse("WIDE"), Some(ImagePreference::Wide));
    assert_eq!(
        ImagePreference::parse("  Tall\n"),
        Some(ImagePreference::Tall)
    );
    assert_eq!(
        ImagePreference::parse("\tNoNe "),
        Some(ImagePreference::NoPreference)
    );
    assert_eq!(
        ImagePreference::parse("   "),
        Some(ImagePreference::NoPreference)
    );
}

#[test]
fn preference_rejects_unknown_words() {
    assert_eq!(ImagePreference::parse("sideways"), None);
    assert_eq!(ImagePreference::parse("wide tall"), None);
    assert_eq!(ImagePreference::parse("w i d e"), None);
}

#[test]
fn preference_from_recognized_text() {
    assert_eq!(
        ImagePreference::from(String::from("Wide")),
        ImagePreference::Wide
    );
    assert_eq!(
        ImagePreference::from(String::from(" tall ")),
        ImagePreference::Tall
    );
    assert_eq!(
        ImagePreference::from(String::from("NULL")),
        ImagePreference::NoPreference
    );
}

#[test]
fn preference_text_round_trip() {
    for p in [
        ImagePreference::Wide,
        ImagePreference::Tall,
        ImagePreference::NoPreference,
    ] {
        let text = p.to_text();
        assert_eq!(ImagePreference::parse(&text), Some(p));
    }
    assert_eq!(ImagePreference::Wide.to_text(), "wide");
    assert_eq!(ImagePreference::Tall.to_text(), "tall");
    assert_eq!(ImagePreference::NoPreference.to_text(), "none");
}

#[test]
fn preference_default_is_no_preference() {
    assert_eq!(ImagePreference::default(), ImagePreference::NoPreference);
}

#[test]
fn format_parses_known_words() {
    assert_eq!(DataFormat::parse("names"), Some(DataFormat::Names));
    assert_eq!(DataFormat::parse("name"), Some(DataFormat::Names));
    assert_eq!(DataFormat::parse("copies"), Some(DataFormat::Copies));
    assert_eq!(DataFormat::parse("copy"), Some(DataFormat::Copies));
    assert_eq!(DataFormat::parse(" Names "), Some(DataFormat::Names));
    assert_eq!(DataFormat::parse("COPY"), Some(DataFormat::Copies));
}

#[test]
fn format_rejects_unknown_words() {
    assert_eq!(DataFormat::parse(""), None);
    assert_eq!(DataFormat::parse("move"), None);
    assert_eq!(DataFormat::parse("copie"), None);
}

#[test]
fn format_from_and_text_round_trip() {
    assert_eq!(DataFormat::from(String::from("Names")), DataFormat::Names);
    assert_eq!(DataFormat::from(String::from("copy")), DataFormat::Copies);
    assert_eq!(DataFormat::Names.to_text(), "names");
    assert_eq!(DataFormat::Copies.to_text(), "copies");
    assert_eq!(DataFormat::default(), DataFormat::Names);
}
