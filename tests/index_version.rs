use vna::index_version::{versioned_index_name, IndexVersion};

fn assert_parses(index_name: &str, expected: Option<u32>) {
    assert_eq!(
        IndexVersion::from_index_name(index_name),
        expected.map(IndexVersion)
    );
}

#[test]
fn parses_valid_index_name_with_version() {
    assert_parses("_1", Some(1));
    assert_parses("blah_0", Some(0));
    assert_parses("blah_blah_bruh_42", Some(42));
}

#[test]
fn returns_none_on_invalid_index_name_with_version() {
    assert_parses("", None);
    assert_parses("_", None);
    assert_parses("bruh", None);
    assert_parses("bruh_", None);
    assert_parses("_bruh", None);
    assert_parses("bruh___4_a", None);
}

#[test]
fn parse_follows_integer_parsing_rules() {
    assert_parses("a_+5", Some(5));
    assert_parses("a_007", Some(7));
    assert_parses("a_-1", None);
    assert_parses("a_+", None);
    assert_parses("a_4294967295", Some(u32::MAX));
    assert_parses("a_4294967296", None);
    assert_parses("a_1 ", None);
    assert_parses("a_12_", None);
}

#[test]
fn attach_to_alias_formats_alias_and_version() {
    assert_eq!(IndexVersion(7).attach_to_alias("articles"), "articles_7");
    assert_eq!(IndexVersion(0).attach_to_alias(""), "_0");
    assert_eq!(IndexVersion(4294967295).attach_to_alias("x_y"), "x_y_4294967295");
}

#[test]
fn name_round_trips_through_parse() {
    for alias in ["articles", "", "with_sep", "trailing_", "_lead", "ünï_cødé"] {
        for v in [0u32, 1, 9, 10, 42, 100, 65535, u32::MAX] {
            let name = IndexVersion(v).attach_to_alias(alias);
            assert_eq!(IndexVersion::from_index_name(&name), Some(IndexVersion(v)));
        }
    }
}

#[test]
fn incremented_adds_one() {
    assert_eq!(IndexVersion(1).incremented(), IndexVersion(2));
    assert_eq!(IndexVersion(41).incremented(), IndexVersion(42));
    assert_eq!(IndexVersion(u32::MAX - 1).incremented(), IndexVersion(u32::MAX));
}

#[test]
fn default_version_is_one() {
    assert_eq!(IndexVersion::default(), IndexVersion(1));
}

#[test]
fn versioned_index_name_has_v_prefix() {
    assert_eq!(versioned_index_name("articles", 1), "articles_v1");
    assert_eq!(versioned_index_name("news", 305), "news_v305");
}
