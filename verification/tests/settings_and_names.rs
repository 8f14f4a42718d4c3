use anonpic::capture::{capture_settings, crop_in_bounds, CaptureSettings};
use anonpic::config::{
    apply_saved_ignore_self, default_true, draw_unique_name, generate_custom_data, push_unique, Config,
    CustomDataConfig,
};
use anonpic::input::{
    clipboard_notice_body, is_print_screen_press, menu_command, MenuCommand, VK_SNAPSHOT, WM_KEYDOWN,
    WM_SYSKEYDOWN,
};
use anonpic::names::{is_generated_name, random_string, temp_path, CHARSET, CHARSET_LEN};
use anonpic::start_menu::{
    apply, apply_saved, ensure_hash_recorded, removal_confirmed, same_text, state_after, ShortcutAction,
    ShortcutState,
};
use anonpic::text::{bytes_of, chars_of, hex_lower, lowercase_equals, trim};

fn config() -> Config {
    Config {
        save_directory: String::new(),
        image_format: String::new(),
        auto_save: true,
        copy_to_clipboard: false,
        circular_selection: true,
        freeze_screen_on_capture: false,
        ignore_self: true,
        fill_custom_data: false,
        start_menu_shortcut: false,
        custom_data: CustomDataConfig::default(),
    }
}

fn state(location_known: bool, shortcut_exists: bool, hash_recorded: Option<bool>) -> ShortcutState {
    ShortcutState { location_known, shortcut_exists, hash_recorded }
}

#[test]
fn names_take_their_length_from_the_first_byte() {
    assert_eq!(random_string(&[0u8; 15]), "AAAAAAAA");
    let mut bytes = [0u8; 15];
    bytes[0] = 6;
    for i in 1..15 {
        bytes[i] = (i - 1) as u8;
    }
    assert_eq!(random_string(&bytes), "ABCDEFGHIJKLMN");
    bytes[0] = 13;
    assert_eq!(random_string(&bytes).chars().count(), 14);
    bytes[0] = 7;
    assert_eq!(random_string(&bytes), "ABCDEFGH");
}

#[test]
fn name_characters_wrap_around_the_charset() {
    let mut bytes = [0u8; 15];
    bytes[1] = 78;
    bytes[2] = 79;
    bytes[3] = 255;
    let name = random_string(&bytes);
    let chars: Vec<char> = name.chars().collect();
    assert_eq!(chars[0], '}');
    assert_eq!(chars[1], 'A');
    // 255 % 79 == 18
    assert_eq!(chars[2], 'S');
}

#[test]
fn every_name_character_comes_from_the_charset() {
    assert_eq!(CHARSET.chars().count(), CHARSET_LEN);
    for seed in 0..=255u8 {
        let mut bytes = [0u8; 15];
        for (i, b) in bytes.iter_mut().enumerate() {
            *b = seed.wrapping_mul(31).wrapping_add((i as u8).wrapping_mul(17));
        }
        let name = random_string(&bytes);
        let n = name.chars().count();
        assert!((8..=14).contains(&n));
        assert!(name.chars().all(|c| CHARSET.contains(c)));
    }
}

#[test]
fn temp_paths_sit_next_to_the_target() {
    assert_eq!(temp_path("C:\\a\\b.png", "xyz"), "C:\\a\\b.png.xyz.tmp");
    assert_eq!(temp_path("", "s"), ".s.tmp");
}

#[test]
fn trimming_removes_unicode_white_space() {
    assert_eq!(trim("  hi \n"), "hi");
    assert_eq!(trim("\u{3000}x y\u{a0}"), "x y");
    assert_eq!(trim(" \t "), "");
    assert_eq!(trim("a"), "a");
}

#[test]
fn text_helpers() {
    assert!(lowercase_equals("JpEg", "jpeg"));
    assert!(!lowercase_equals("jpeg", "JPEG"));
    assert!(!lowercase_equals("jpe", "jpeg"));
    assert_eq!(chars_of("a\u{e9}"), vec!['a', '\u{e9}']);
    assert_eq!(bytes_of("a\u{e9}"), vec![0x61, 0xC3, 0xA9]);
    assert_eq!(hex_lower(&[0x00, 0xAB, 0x0F, 0xF0]), "00ab0ff0");
    assert_eq!(hex_lower(&[]), "");
}

#[test]
fn custom_data_takes_the_first_two_values() {
    let values = vec!["abcdefgh".to_string(), "ABCDEFGH{}".to_string(), "c".to_string()];
    let c = generate_custom_data(&values);
    assert_eq!(c.exif, "abcdefgh");
    assert_eq!(c.metadata, "ABCDEFGH{}");
    let empty = CustomDataConfig::default();
    assert!(empty.exif.is_empty() && empty.metadata.is_empty());
}

#[test]
fn unique_values_are_added_once() {
    let mut values = vec!["a".to_string()];
    assert!(push_unique(&mut values, "b".to_string()));
    assert!(!push_unique(&mut values, "a".to_string()));
    assert!(!push_unique(&mut values, "b".to_string()));
    assert_eq!(values, vec!["a".to_string(), "b".to_string()]);
}

#[test]
fn saved_settings_and_their_defaults() {
    assert!(default_true());
    assert!(!apply_saved_ignore_self(None));
    let c = config();
    assert!(apply_saved_ignore_self(Some(&c)));
    assert_eq!(capture_settings(None), CaptureSettings { circular: false, freeze_screen: true });
    assert_eq!(capture_settings(Some(&c)), CaptureSettings { circular: true, freeze_screen: false });
}

#[test]
fn crops_must_lie_inside_the_source() {
    assert!(crop_in_bounds(0, 0, 10, 10, 10, 10));
    assert!(crop_in_bounds(5, 5, 5, 5, 10, 10));
    assert!(!crop_in_bounds(6, 5, 5, 5, 10, 10));
    assert!(!crop_in_bounds(-1, 0, 5, 5, 10, 10));
    assert!(!crop_in_bounds(0, 0, 0, 5, 10, 10));
    assert!(!crop_in_bounds(0, 0, 5, -2, 10, 10));
}

#[test]
fn enabled_shortcut_is_created_or_backfilled() {
    assert_eq!(apply(true, state(true, false, Some(false))), ShortcutAction::Create);
    assert_eq!(apply(true, state(true, true, Some(false))), ShortcutAction::RecordHash);
    assert_eq!(apply(true, state(true, true, Some(true))), ShortcutAction::Nothing);
    assert_eq!(apply(true, state(true, true, None)), ShortcutAction::Nothing);
}

#[test]
fn disabled_shortcut_is_removed_after_verification() {
    assert_eq!(apply(false, state(true, true, Some(true))), ShortcutAction::VerifyAndRemove);
    assert_eq!(apply(false, state(true, false, Some(true))), ShortcutAction::ClearHash);
}

#[test]
fn unknown_start_menu_location_does_nothing() {
    assert_eq!(apply(true, state(false, false, None)), ShortcutAction::Nothing);
    assert_eq!(apply(false, state(false, true, Some(true))), ShortcutAction::Nothing);
}

#[test]
fn saved_shortcut_setting_defaults_to_enabled() {
    assert_eq!(apply_saved(None, state(true, false, None)), ShortcutAction::Create);
    let c = config();
    assert_eq!(apply_saved(Some(&c), state(true, true, Some(true))), ShortcutAction::VerifyAndRemove);
}

#[test]
fn hash_is_recorded_only_when_missing() {
    assert!(ensure_hash_recorded(Some(false)));
    assert!(!ensure_hash_recorded(Some(true)));
    assert!(!ensure_hash_recorded(None));
}

#[test]
fn removal_needs_matching_hashes() {
    assert!(removal_confirmed(Some(" abc\r\n"), Some("abc")));
    assert!(!removal_confirmed(Some("abc"), Some("abd")));
    assert!(!removal_confirmed(Some("abc"), Some(" abc")));
    assert!(!removal_confirmed(None, Some("abc")));
    assert!(!removal_confirmed(Some("abc"), None));
    assert!(same_text("x", "x"));
    assert!(!same_text("x", "xy"));
}

#[test]
fn print_screen_key_downs_are_recognized() {
    assert!(is_print_screen_press(0, WM_KEYDOWN as usize, VK_SNAPSHOT));
    assert!(is_print_screen_press(0, WM_SYSKEYDOWN as usize, VK_SNAPSHOT));
    assert!(!is_print_screen_press(1, WM_KEYDOWN as usize, VK_SNAPSHOT));
    assert!(!is_print_screen_press(0, 0x0101, VK_SNAPSHOT));
    assert!(!is_print_screen_press(0, WM_KEYDOWN as usize, 0x2D));
    assert_eq!((WM_KEYDOWN, WM_SYSKEYDOWN, VK_SNAPSHOT), (0x0100, 0x0104, 0x2C));
}

#[test]
fn tray_menu_entries() {
    assert_eq!(menu_command("open"), Some(MenuCommand::Open));
    assert_eq!(menu_command("capture"), Some(MenuCommand::Capture));
    assert_eq!(menu_command("quit"), Some(MenuCommand::Quit));
    assert_eq!(menu_command("Quit"), None);
    assert_eq!(menu_command(""), None);
}

#[test]
fn clipboard_notice_names_the_saved_file() {
    assert_eq!(clipboard_notice_body(Some("C:\\x.png")), "C:\\x.png");
    assert_eq!(clipboard_notice_body(None), "The capture is on your clipboard.");
}

#[test]
fn crops_whose_edges_overflow_are_refused() {
    assert!(!crop_in_bounds(i32::MAX, 0, 10, 10, i32::MAX, 10));
    assert!(!crop_in_bounds(0, i32::MAX - 1, 5, 5, 10, i32::MAX));
    assert!(crop_in_bounds(i32::MAX - 10, 0, 10, 1, i32::MAX, 1));
}

#[test]
fn drawn_names_are_added_once() {
    let mut values: Vec<String> = Vec::new();
    let zeros = [0u8; 15];
    assert!(draw_unique_name(&mut values, &zeros));
    assert!(!draw_unique_name(&mut values, &zeros));
    let mut other = [0u8; 15];
    other[1] = 1;
    assert!(draw_unique_name(&mut values, &other));
    assert_eq!(values, vec!["AAAAAAAA".to_string(), "BAAAAAAA".to_string()]);
    let c = generate_custom_data(&values);
    assert_ne!(c.exif, c.metadata);
}

#[test]
fn generated_name_shape() {
    assert!(is_generated_name("AAAAAAAA"));
    assert!(is_generated_name("aZ9!@#$%^&()-_"));
    assert!(!is_generated_name("short"));
    assert!(!is_generated_name("fifteen_chars__"));
    assert!(!is_generated_name("has space"));
    assert!(!is_generated_name("caf\u{e9}1234"));
    assert!(is_generated_name(&random_string(&[200u8; 15])));
}

#[test]
fn disabling_undoes_enabling() {
    let empty = state(true, false, Some(false));
    let action = apply(true, empty);
    assert_eq!(action, ShortcutAction::Create);
    let enabled = state_after(action, empty, true);
    assert_eq!(enabled, state(true, true, Some(true)));
    let action = apply(false, enabled);
    assert_eq!(action, ShortcutAction::VerifyAndRemove);
    assert_eq!(state_after(action, enabled, true), empty);
    // A shortcut whose hash does not match is left in place.
    assert_eq!(state_after(action, enabled, false), enabled);
}

#[test]
fn applying_twice_equals_once() {
    for enabled in [false, true] {
        for known in [false, true] {
            for exists in [false, true] {
                for hash in [None, Some(false), Some(true)] {
                    for matches in [false, true] {
                        let s = state(known, exists, hash);
                        let once = state_after(apply(enabled, s), s, matches);
                        assert_eq!(state_after(apply(enabled, once), once, matches), once);
                    }
                }
            }
        }
    }
}
