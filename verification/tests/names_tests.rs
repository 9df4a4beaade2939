use omnitouch::names::config_file_names;
use omnitouch::names::config_list;
use omnitouch::names::copy_config_name;
use omnitouch::names::copy_file_name;
use omnitouch::names::find_name;
use omnitouch::names::get_config_directory;
use omnitouch::names::get_invalid_chars_description;
use omnitouch::names::is_config_file;
use omnitouch::names::is_valid_filename;
use omnitouch::names::latest_config;
use omnitouch::names::new_config_file_name;
use omnitouch::names::new_config_name;
use omnitouch::names::rename_allowed;
use omnitouch::names::trim_json_suffix;
use omnitouch::names::trim_text;
use omnitouch::names::with_json_suffix;
use omnitouch::number::parse_i32;
use omnitouch::order::sort_names;
use omnitouch::order::text_lt;
use omnitouch::text::format_decimal;
use omnitouch::text::format_radix;
use omnitouch::text::instance_name;
use omnitouch::text::vk_display;

fn strings(v: &[&str]) -> Vec<String> {
    v.iter().map(|s| s.to_string()).collect()
}

#[test]
fn plain_names_are_valid() {
    assert!(is_valid_filename("abc"));
    assert!(is_valid_filename("我的配置"));
    assert!(is_valid_filename("COM10"));
    assert!(is_valid_filename("configuration"));
    assert!(is_valid_filename("a.b.c"));
}

#[test]
fn empty_name_is_invalid() {
    assert!(!is_valid_filename(""));
}

#[test]
fn forbidden_characters_are_invalid() {
    for s in ["a\\b", "a/b", "a:b", "a*b", "a?b", "a\"b", "a<b", "a>b", "a|b"] {
        assert!(!is_valid_filename(s), "{}", s);
    }
}

#[test]
fn reserved_device_names_are_invalid_in_any_case() {
    assert!(!is_valid_filename("con"));
    assert!(!is_valid_filename("CON"));
    assert!(!is_valid_filename("Lpt9"));
    assert!(!is_valid_filename("com1.json"));
    assert!(!is_valid_filename("con.txt"));
    assert!(!is_valid_filename("nul.tar.gz"));
}

#[test]
fn name_length_counts_characters() {
    assert!(is_valid_filename(&"a".repeat(255)));
    assert!(!is_valid_filename(&"a".repeat(256)));
    // each of these characters takes three bytes in UTF-8 but counts once
    assert!(is_valid_filename(&"中".repeat(100)));
    assert!(is_valid_filename(&"配".repeat(255)));
    assert!(!is_valid_filename(&"配".repeat(256)));
}

#[test]
fn invalid_chars_description_lists_the_characters() {
    assert_eq!(get_invalid_chars_description(), "文件名不能包含以下字符: \\ / : * ? \" < > |");
}

#[test]
fn new_config_name_takes_the_first_free_candidate() {
    assert_eq!(new_config_name(&strings(&[])), "新配置");
    assert_eq!(new_config_name(&strings(&["新配置"])), "新配置1");
    assert_eq!(new_config_name(&strings(&["新配置", "新配置1", "新配置3"])), "新配置2");
    assert_eq!(new_config_name(&strings(&["新配置1", "other"])), "新配置");
}

#[test]
fn copy_config_name_counts_from_two() {
    assert_eq!(copy_config_name(&strings(&["a"]), "a"), "a_副本");
    assert_eq!(copy_config_name(&strings(&["a", "a_副本"]), "a"), "a_副本2");
    assert_eq!(copy_config_name(&strings(&["a", "a_副本", "a_副本2"]), "a"), "a_副本3");
}

#[test]
fn file_names_of_new_and_copied_configurations() {
    assert_eq!(new_config_file_name(0), "新配置.json");
    assert_eq!(new_config_file_name(1), "新配置1.json");
    assert_eq!(new_config_file_name(12), "新配置12.json");
    assert_eq!(copy_file_name("game", 0), "game_copy.json");
    assert_eq!(copy_file_name("game", 3), "game_copy3.json");
}

#[test]
fn configuration_files_end_in_json_but_not_settings() {
    assert!(is_config_file("a.json"));
    assert!(is_config_file("B.JSON"));
    assert!(!is_config_file("settings.json"));
    assert!(!is_config_file("Settings.Json"));
    assert!(!is_config_file("notes.txt"));
    assert!(!is_config_file("json"));
    assert_eq!(
        config_file_names(&strings(&["x.json", "settings.json", "readme.md", "Y.Json"])),
        strings(&["x.json", "Y.Json"])
    );
}

#[test]
fn config_list_keeps_json_stems_sorted() {
    let files = strings(&["zeta.json", "alpha.json", "settings.json", "SETTINGS.json", "notes.txt", "beta.JSON", ".json", "中文.json"]);
    assert_eq!(config_list(&files), strings(&["alpha", "zeta", "中文"]));
    assert_eq!(config_list(&strings(&[])), strings(&[]));
}

#[test]
fn json_suffix_is_trimmed_and_added() {
    assert_eq!(trim_json_suffix("a.json"), "a");
    assert_eq!(trim_json_suffix("a.json.json"), "a");
    assert_eq!(trim_json_suffix("a.txt"), "a.txt");
    assert_eq!(trim_json_suffix(".json"), "");
    assert_eq!(with_json_suffix("b"), "b.json");
    assert_eq!(trim_json_suffix(&with_json_suffix("游戏")), "游戏");
}

#[test]
fn find_name_gives_the_first_position() {
    let names = strings(&["a", "b", "a"]);
    assert_eq!(find_name(&names, "a"), Some(0));
    assert_eq!(find_name(&names, "b"), Some(1));
    assert_eq!(find_name(&names, "c"), None);
}

#[test]
fn config_directory_sits_beside_the_program() {
    assert_eq!(get_config_directory(Some("C:\\Tools\\OmniTouch".to_string())), "C:\\Tools\\OmniTouch\\configs");
    assert_eq!(get_config_directory(Some("C:\\Tools\\".to_string())), "C:\\Tools\\configs");
    assert_eq!(get_config_directory(Some(String::new())), "configs");
    assert_eq!(get_config_directory(None), "configs");
}

#[test]
fn latest_config_picks_the_newest_configuration() {
    let files = vec![
        ("a.json".to_string(), (10u64, 0u32)),
        ("settings.json".to_string(), (99, 0)),
        ("b.json".to_string(), (20, 5)),
        ("c.json".to_string(), (20, 5)),
        ("d.txt".to_string(), (50, 0)),
    ];
    assert_eq!(latest_config(&files), Some(2));
    assert_eq!(latest_config(&vec![("a.json".to_string(), (0u64, 0u32))]), None);
    assert_eq!(latest_config(&vec![]), None);
}

#[test]
fn trim_text_removes_outer_white_space() {
    assert_eq!(trim_text("  a b \t\n"), "a b");
    assert_eq!(trim_text("\u{3000}名字\u{3000}"), "名字");
    assert_eq!(trim_text("   "), "");
}

#[test]
fn rename_goes_ahead_only_for_a_new_valid_name() {
    let names = strings(&["a.json", "b.json"]);
    assert!(rename_allowed(&names, Some(0), "c.json"));
    assert!(!rename_allowed(&names, Some(0), "a.json"));
    assert!(!rename_allowed(&names, Some(0), "b.json"));
    assert!(!rename_allowed(&names, Some(0), "x:y"));
    assert!(!rename_allowed(&names, Some(0), ""));
    assert!(!rename_allowed(&names, Some(5), "c.json"));
    assert!(!rename_allowed(&names, None, "c.json"));
}

#[test]
fn parse_reads_signed_whole_numbers() {
    assert_eq!(parse_i32("42"), Some(42));
    assert_eq!(parse_i32("-7"), Some(-7));
    assert_eq!(parse_i32("+15"), Some(15));
    assert_eq!(parse_i32("007"), Some(7));
    assert_eq!(parse_i32("2147483647"), Some(i32::MAX));
    assert_eq!(parse_i32("-2147483648"), Some(i32::MIN));
    assert_eq!(parse_i32("2147483648"), None);
    assert_eq!(parse_i32(""), None);
    assert_eq!(parse_i32("-"), None);
    assert_eq!(parse_i32("1a"), None);
    assert_eq!(parse_i32(" 1"), None);
    assert_eq!(parse_i32("1.5"), None);
}

#[test]
fn parse_reads_back_what_format_writes() {
    for n in [0usize, 7, 10, 99, 12345, 2147483647] {
        assert_eq!(parse_i32(&format_decimal(n)), Some(n as i32));
    }
}

#[test]
fn numbers_are_written_in_decimal_and_hexadecimal() {
    assert_eq!(format_decimal(0), "0");
    assert_eq!(format_decimal(1203), "1203");
    assert_eq!(format_radix(255, 16), "FF");
    assert_eq!(format_radix(5, 2), "101");
    assert_eq!(instance_name(3), "组合 3");
    assert_eq!(vk_display(0x99), "VK (0x99)");
    assert_eq!(vk_display(0xAB), "VK (0xAB)");
    assert_eq!(vk_display(0x5), "VK (0x5)");
}

#[test]
fn names_sort_by_code_points() {
    assert!(text_lt("a", "b"));
    assert!(text_lt("a", "ab"));
    assert!(!text_lt("b", "a"));
    assert!(!text_lt("a", "a"));
    assert!(text_lt("Z", "a"));
    assert_eq!(sort_names(strings(&["b", "a", "c", "a"])), strings(&["a", "a", "b", "c"]));
}
