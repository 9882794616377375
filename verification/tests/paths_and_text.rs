use riot_rs::paths::{parse_parent_module_path, parse_type_name_from_type_path};
use riot_rs::text::{backquoted_list, split, str_eq, trim};

#[test]
fn test_parse_parent_module_path() {
    assert_eq!(
        parse_parent_module_path(
            "riot_rs::builtin_sensors::lis3dh::Lis3dh::<riot_rs::emb↴
                                                 …assy::arch::i2c::I2c>",
        ),
        "riot_rs::builtin_sensors::lis3dh",
    );
}

#[test]
fn test_parse_type_name_from_type_path() {
    assert_eq!(
        parse_type_name_from_type_path(
            "riot_rs::builtin_sensors::lis3dh::Lis3dh::<riot_rs::emb↴
                                                 …assy::arch::i2c::I2c>",
        ),
        "Lis3dh",
    );
}

#[test]
fn parent_module_path_of_plain_path() {
    assert_eq!(parse_parent_module_path("a::b::C"), "a::b");
    assert_eq!(parse_type_name_from_type_path("a::b::C"), "C");
}

#[test]
fn path_without_separator_is_a_bare_type_name() {
    assert_eq!(parse_parent_module_path("Lis3dh"), "");
    assert_eq!(parse_type_name_from_type_path("Lis3dh"), "Lis3dh");
    assert_eq!(parse_parent_module_path(""), "");
    assert_eq!(parse_type_name_from_type_path(""), "");
}

#[test]
fn generic_arguments_are_left_out() {
    assert_eq!(parse_parent_module_path("m::T::<x::Y>"), "m");
    assert_eq!(parse_type_name_from_type_path("m::T::<x::Y>"), "T");
}

#[test]
fn module_path_and_type_name_rebuild_the_path() {
    let path = "riot_rs::builtin_sensors::lis3dh::Lis3dh";
    let rebuilt = format!(
        "{}::{}",
        parse_parent_module_path(path),
        parse_type_name_from_type_path(path)
    );
    assert_eq!(rebuilt, path);
}

#[test]
fn trim_removes_unicode_whitespace_at_both_ends() {
    assert_eq!(trim("  a b \t\n"), "a b");
    assert_eq!(trim("\u{3000}x\u{a0}"), "x");
    assert_eq!(trim("   "), "");
    assert_eq!(trim(""), "");
}

#[test]
fn split_keeps_empty_pieces() {
    assert_eq!(split("a,b,,c", ','), vec!["a", "b", "", "c"]);
    assert_eq!(split("", ','), vec![""]);
    assert_eq!(split(",", ','), vec!["", ""]);
}

#[test]
fn backquoted_list_joins_with_commas() {
    assert_eq!(backquoted_list(&vec!["a", "b"]), "`a`, `b`");
    assert_eq!(backquoted_list(&vec!["x"]), "`x`");
    assert_eq!(backquoted_list(&vec![]), "");
}

#[test]
fn str_eq_compares_text() {
    assert!(str_eq("abc", "abc"));
    assert!(!str_eq("abc", "abd"));
    assert!(!str_eq("ab", "abc"));
}

#[test]
fn whitespace_agrees_with_char_is_whitespace() {
    for c in (0u32..=0x10FFFF).filter_map(char::from_u32) {
        assert_eq!(riot_rs::text::is_whitespace(c), c.is_whitespace(), "{:?}", c);
    }
}

#[test]
fn type_name_holds_no_separator() {
    for path in ["a::b::C", "a::::C", "a:::C", "C", "::C", "a::b::", "m::T::<x::Y>"] {
        assert!(!parse_type_name_from_type_path(path).contains("::"), "{path}");
    }
}
