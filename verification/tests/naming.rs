use ferrous_opencc::config::BuiltinConfig;
use ferrous_opencc::OpenCC;
use smtc_suite::letters::{blank_flags_of, lowercase_flags_of, trimmed, uppercase_flags_of};
use smtc_suite::text::{
    split_text, text_break_words, text_contains, text_ends_with, text_equal_ignoring_ascii_case,
    text_starts_with, text_trim_end_matches, text_trim_flagged,
};
use smtc_suite::utils::{
    app_name_of, convert_text, display_name_from, get_display_name_from_smtc_id, spaced_name_of,
};

#[test]
fn test_convert_text_with_converter() {
    let converter = OpenCC::from_config(BuiltinConfig::S2t).unwrap();
    let input = "一个项目";
    let expected = "一個項目";
    assert_eq!(convert_text(input, Some(&converter)), expected);
}

#[test]
fn test_convert_text_without_converter() {
    let input = "Hello, World";
    assert_eq!(convert_text(input, None), input.to_string());
}

#[test]
fn test_convert_text_with_empty_string() {
    let converter = OpenCC::from_config(BuiltinConfig::S2t).unwrap();
    assert_eq!(convert_text("", Some(&converter)), "");
    assert_eq!(convert_text("", None), "");
}

#[test]
fn test_display_name_from_plain_exe() {
    let id = "Spotify.exe";
    assert_eq!(get_display_name_from_smtc_id(id), "Spotify.exe");
}

#[test]
fn test_display_name_from_apple_music_aumid() {
    let id = "AppleInc.AppleMusicWin_nzyj5cx40ttqa!App";
    assert_eq!(get_display_name_from_smtc_id(id), "Apple Music");
}

#[test]
fn test_display_name_from_zune_aumid() {
    let id = "Microsoft.ZuneMusic_8wekyb3d8bbwe!Microsoft.ZuneMusic";
    assert_eq!(get_display_name_from_smtc_id(id), "Zune Music");
}

#[test]
fn test_display_name_from_another_camelcase_aumid() {
    let id = "SomeDeveloper.MyAwesomePlayerUwp_abcdef123!Main";
    assert_eq!(get_display_name_from_smtc_id(id), "My Awesome Player");
}

#[test]
fn test_display_name_fallback_when_prettify_is_empty() {
    let id = "Vendor.Win_hash!App";
    assert_eq!(get_display_name_from_smtc_id(id), id);
}

#[test]
fn test_display_name_with_empty_input() {
    assert_eq!(get_display_name_from_smtc_id(""), "");
}

#[test]
fn test_display_name_with_no_dots_in_pfn() {
    let id = "MyCoolApp_hash!App";
    assert_eq!(get_display_name_from_smtc_id(id), "My Cool App");
}

#[test]
fn display_name_goes_through_its_stages() {
    let id = "AppleInc.AppleMusicWin_nzyj5cx40ttqa!App";
    let name = app_name_of(id);
    assert_eq!(name, "AppleMusicWin");
    let spaced = spaced_name_of(name, &lowercase_flags_of(name), &uppercase_flags_of(name));
    assert_eq!(spaced, "Apple Music ");
    assert_eq!(display_name_from(id, &spaced, &blank_flags_of(&spaced)), "Apple Music");
    assert_eq!(display_name_from(id, "  ", &vec![true, true]), id);
}

#[test]
fn letters_are_told_apart() {
    assert_eq!(lowercase_flags_of("aÄß1"), vec![true, false, true, false]);
    assert_eq!(uppercase_flags_of("aÄß1"), vec![false, true, false, false]);
    assert_eq!(blank_flags_of("a \t\u{3000}"), vec![false, true, true, true]);
    assert_eq!(trimmed("\u{3000} Artist \n"), "Artist");
    assert_eq!(trimmed("   "), "");
}

#[test]
fn text_is_searched_by_characters() {
    assert_eq!(split_text("a\u{2014}b\u{2014}", '\u{2014}'), vec!["a", "b", ""]);
    assert_eq!(split_text("", ','), vec![""]);
    assert!(text_starts_with("音乐播放器", "音乐"));
    assert!(!text_starts_with("音", "音乐"));
    assert!(text_ends_with("player.exe", ".exe"));
    assert!(text_contains("a音乐b", "音乐"));
    assert!(!text_contains("a音b", "音乐"));
    assert!(text_contains("anything", ""));
    assert_eq!(text_trim_end_matches("WinWinX", "Win"), "WinWinX");
    assert_eq!(text_trim_end_matches("XWinWin", "Win"), "X");
    assert!(text_equal_ignoring_ascii_case("SpotIFY.exe", "spotify.EXE"));
    assert!(!text_equal_ignoring_ascii_case("Ä.exe", "ä.exe"));
    assert_eq!(text_trim_flagged("xyz", &vec![true, false, true]), "y");
    assert_eq!(
        text_break_words("aBc", &vec![true, false, true], &vec![false, true, false]),
        "a Bc"
    );
}
