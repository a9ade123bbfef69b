use actiongen::sanitize::{
    field_ident, format_name, remove_leading_nonalpha, replace_numeric, snake_to_camel_case,
    strip_colour, codeblock_key,
};

#[test]
fn test_strip_colour_drops_escape_pairs() {
    // The section-sign escape character and the one character after it go
    // together.
    assert_eq!(strip_colour("\u{a7}9Set Reduced"), "Set Reduced");
    assert_eq!(strip_colour("\u{a7}aHello \u{a7}bWorld"), "Hello World");
    assert_eq!(strip_colour("plain"), "plain");
    // A trailing lone escape character is dropped alone.
    assert_eq!(strip_colour("end\u{a7}"), "end");
    // Other characters never consume their follower.
    assert_eq!(strip_colour("a\nb"), "a\nb");
}

#[test]
fn test_format_name_full_pipeline() {
    assert_eq!(format_name("\u{a7}cDamage ="), "DamageEq");
    // The colour selector of an embedded escape does not survive into the
    // identifier.
    assert_eq!(format_name("a\u{a7}bc"), "ac");
    // A control character is no escape: only the whitespace itself goes.
    assert_eq!(format_name("a\nb"), "ab");
    assert_eq!(format_name("= Equals"), "Equals");
    assert_eq!(format_name("a < b > c"), "aLessThanbGreaterThanc");
    assert_eq!(format_name("Set Hotbar Items"), "SetHotbarItems");
    assert_eq!(format_name("123"), "");
    assert_eq!(format_name(""), "");
}

#[test]
fn test_format_name_idempotent_on_samples() {
    for raw in [
        "\u{a7}9Set Reduced Debug Info Enabled",
        "= Equals",
        "Item(s) to set",
        "123abc def",
        "",
    ] {
        let once = format_name(raw);
        assert_eq!(format_name(&once), once);
    }
}

#[test]
fn test_remove_leading_nonalpha() {
    assert_eq!(remove_leading_nonalpha("123abc"), "abc");
    assert_eq!(remove_leading_nonalpha("9Lives"), "Lives");
    assert_eq!(remove_leading_nonalpha("abc"), "abc");
    assert_eq!(remove_leading_nonalpha("123"), "");
}

#[test]
fn test_replace_numeric() {
    assert_eq!(replace_numeric("Top5"), "TopFive");
    assert_eq!(replace_numeric("1st"), "Onest");
    assert_eq!(replace_numeric("907"), "NineZeroSeven");
    assert_eq!(replace_numeric("none"), "none");
}

#[test]
fn test_snake_to_camel_case() {
    assert_eq!(snake_to_camel_case("player_action"), "PlayerAction");
    assert_eq!(snake_to_camel_case("select object"), "SelectObject");
    assert_eq!(snake_to_camel_case("if_game"), "IfGame");
}

#[test]
fn test_field_ident() {
    assert_eq!(field_ident("Item(s) to set"), "items_to_set");
    // A name ending in the raw substring `type` gets a trailing underscore.
    assert_eq!(field_ident("Sound Type"), "sound_type_");
    // Only a trailing `type` is touched.
    assert_eq!(field_ident("Type of sound"), "type_of_sound");
}

#[test]
fn test_codeblock_key() {
    assert_eq!(codeblock_key("PLAYER ACTION"), "player_action");
    assert_eq!(codeblock_key("IF GAME"), "if_game");
}
