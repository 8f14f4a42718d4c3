use anonpic::config::{Config, CustomDataConfig};
use anonpic::exif::StripExifResult;
use anonpic::metadata::{
    common_tags, metadata_from_value, strip_metadata_needs_save, strip_metadata_result, write_metadata, Metadata,
    StripMetadataResult, TAG_SOFTWARE,
    TAG_XP_TITLE, TYPE_ASCII, TYPE_BYTE,
};
use anonpic::saves::{
    apply_custom_data, configured_format, file_name, find_encoder, finish_save, guid_eq,
    save_settings, scrub_succeeded, target_directory, Guid, ImageFormat, SaveFinish, SaveNotice,
    SaveSettings,
};

fn config() -> Config {
    Config {
        save_directory: String::new(),
        image_format: "png".to_string(),
        auto_save: true,
        copy_to_clipboard: false,
        circular_selection: false,
        freeze_screen_on_capture: true,
        ignore_self: false,
        fill_custom_data: false,
        start_menu_shortcut: true,
        custom_data: CustomDataConfig::default(),
    }
}

fn guid(data1: u32) -> Guid {
    Guid { data1, data2: 0x1A04, data3: 0x11D3, data4: [0x9A, 0x73, 0x00, 0x00, 0xF8, 0x1E, 0xF3, 0x2E] }
}

#[test]
fn writes_only_present_fields_in_field_order() {
    let mut m = Metadata::default();
    m.software = Some("Ed".to_string());
    m.title = Some("A\u{1F600}".to_string());
    let items = write_metadata(&m);
    assert_eq!(items.len(), 2);
    assert_eq!((items[0].id, items[0].value_type), (TAG_SOFTWARE, TYPE_ASCII));
    assert_eq!(items[0].value, vec![0x45, 0x64, 0x00]);
    assert_eq!((items[1].id, items[1].value_type), (TAG_XP_TITLE, TYPE_BYTE));
    // 'A', then the surrogate pair D83D DE00, then a NUL unit, all little-endian.
    assert_eq!(items[1].value, vec![0x41, 0x00, 0x3D, 0xD8, 0x00, 0xDE, 0x00, 0x00]);
}

#[test]
fn writes_nothing_for_empty_metadata() {
    assert!(write_metadata(&Metadata::default()).is_empty());
}

#[test]
fn ascii_tags_keep_utf8_bytes() {
    let mut m = Metadata::default();
    m.artist = Some("\u{e9}".to_string());
    let items = write_metadata(&m);
    assert_eq!(items[0].id, 0x013B);
    assert_eq!(items[0].value, vec![0xC3, 0xA9, 0x00]);
}

#[test]
fn a_full_payload_covers_every_stripped_tag() {
    let m = metadata_from_value("x");
    let items = write_metadata(&m);
    let ids: Vec<u32> = items.iter().map(|i| i.id).collect();
    assert_eq!(ids, common_tags().to_vec());
    assert_eq!(items[0].value, vec![b'x', 0]);
    assert_eq!(items[11].value, vec![b'x', 0, 0, 0]);
}

#[test]
fn common_tags_are_the_modeled_tags() {
    assert_eq!(
        common_tags(),
        [0x010D, 0x010E, 0x0131, 0x0132, 0x013B, 0x013C, 0x8298, 0x9C9B, 0x9C9C, 0x9C9D, 0x9C9E, 0x9C9F]
    );
}

#[test]
fn strip_metadata_outcomes_are_distinct() {
    assert_ne!(StripMetadataResult::Failed, StripMetadataResult::Stripped);
    assert_ne!(StripMetadataResult::NoMetadataFound, StripMetadataResult::Stripped);
}

#[test]
fn format_names_are_read_loosely() {
    assert_eq!(ImageFormat::from_config("  JPG "), ImageFormat::Jpeg);
    assert_eq!(ImageFormat::from_config("jpeg"), ImageFormat::Jpeg);
    assert_eq!(ImageFormat::from_config("Bitmap"), ImageFormat::Bmp);
    assert_eq!(ImageFormat::from_config("BMP\u{3000}"), ImageFormat::Bmp);
    assert_eq!(ImageFormat::from_config("png"), ImageFormat::Png);
    assert_eq!(ImageFormat::from_config("gif"), ImageFormat::Png);
    assert_eq!(ImageFormat::from_config(""), ImageFormat::Png);
    assert_eq!(ImageFormat::from_config("j pg"), ImageFormat::Png);
}

#[test]
fn formats_map_to_encoders_and_extensions() {
    assert!(guid_eq(&ImageFormat::Png.encoder(), &guid(0x557C_F406)));
    assert!(guid_eq(&ImageFormat::Jpeg.encoder(), &guid(0x557C_F401)));
    assert!(guid_eq(&ImageFormat::Bmp.encoder(), &guid(0x557C_F400)));
    assert_eq!(ImageFormat::Png.extension(), "png");
    assert_eq!(ImageFormat::Jpeg.extension(), "jpg");
    assert_eq!(ImageFormat::Bmp.extension(), "bmp");
}

#[test]
fn guids_compare_every_field() {
    let a = guid(1);
    let mut b = guid(1);
    assert!(guid_eq(&a, &b));
    b.data4[7] = 0;
    assert!(!guid_eq(&a, &b));
    assert!(!guid_eq(&guid(1), &guid(2)));
}

#[test]
fn finds_the_encoder_of_the_first_matching_format() {
    let codecs = vec![(guid(10), guid(100)), (guid(20), guid(200)), (guid(20), guid(300))];
    let found = find_encoder(&codecs, &guid(20)).unwrap();
    assert!(guid_eq(&found, &guid(200)));
    assert!(find_encoder(&codecs, &guid(30)).is_none());
    assert!(find_encoder(&[], &guid(10)).is_none());
}

#[test]
fn configured_format_defaults_to_png() {
    assert_eq!(configured_format(None), ImageFormat::Png);
    let mut c = config();
    c.image_format = "JPEG".to_string();
    assert_eq!(configured_format(Some(&c)), ImageFormat::Jpeg);
}

#[test]
fn file_names_join_stem_and_extension() {
    assert_eq!(file_name("aB3$x", ImageFormat::Jpeg), "aB3$x.jpg");
    assert_eq!(file_name("s", ImageFormat::Png), "s.png");
}

#[test]
fn target_directory_prefers_the_configured_folder() {
    let mut c = config();
    c.save_directory = "  C:\\shots \n".to_string();
    assert_eq!(target_directory(Some(&c), Some("D:\\img".to_string())), Some("C:\\shots".to_string()));
    c.save_directory = "   ".to_string();
    assert_eq!(target_directory(Some(&c), Some("D:\\img".to_string())), Some("D:\\img".to_string()));
    assert_eq!(target_directory(None, Some("D:\\img".to_string())), Some("D:\\img".to_string()));
    assert_eq!(target_directory(None, None), None);
}

#[test]
fn save_settings_default_to_auto_save_without_clipboard() {
    assert_eq!(save_settings(None), SaveSettings { copy_to_clipboard: false, auto_save: true });
    let mut c = config();
    c.copy_to_clipboard = true;
    c.auto_save = false;
    assert_eq!(save_settings(Some(&c)), SaveSettings { copy_to_clipboard: true, auto_save: false });
}

#[test]
fn finishing_a_save_follows_the_settings() {
    let both = finish_save(SaveSettings { copy_to_clipboard: true, auto_save: true }, true);
    assert!(both.copy_to_clipboard && !both.remove_file && both.keep_path);
    assert_eq!(both.notice, SaveNotice::ClipboardWithPath);

    let saved = finish_save(SaveSettings { copy_to_clipboard: false, auto_save: true }, true);
    assert!(!saved.copy_to_clipboard && !saved.remove_file && saved.keep_path);
    assert_eq!(saved.notice, SaveNotice::Saved);

    let clip = finish_save(SaveSettings { copy_to_clipboard: true, auto_save: false }, true);
    assert!(clip.copy_to_clipboard && clip.remove_file && !clip.keep_path);
    assert_eq!(clip.notice, SaveNotice::ClipboardOnly);

    let neither = finish_save(SaveSettings { copy_to_clipboard: false, auto_save: false }, true);
    assert!(!neither.copy_to_clipboard && neither.remove_file && !neither.keep_path);
    assert_eq!(neither.notice, SaveNotice::Silent);
}

#[test]
fn custom_data_is_written_only_when_enabled() {
    assert!(apply_custom_data(None).exif.is_none());
    let mut c = config();
    c.custom_data = CustomDataConfig { exif: " cam ".to_string(), metadata: "meta".to_string() };
    let off = apply_custom_data(Some(&c));
    assert!(off.exif.is_none() && off.metadata.is_none());

    c.fill_custom_data = true;
    let on = apply_custom_data(Some(&c));
    assert_eq!(on.exif, Some("cam".to_string()));
    let m = on.metadata.unwrap();
    assert_eq!(m.document_name, Some("meta".to_string()));
    assert_eq!(m.subject, Some("meta".to_string()));
    assert_eq!(m.copyright, Some("meta".to_string()));
}

#[test]
fn blank_custom_values_are_skipped() {
    let mut c = config();
    c.fill_custom_data = true;
    c.custom_data = CustomDataConfig { exif: "  ".to_string(), metadata: String::new() };
    let plan = apply_custom_data(Some(&c));
    assert!(plan.exif.is_none());
    assert!(plan.metadata.is_none());
}

#[test]
fn a_capture_that_was_not_cleaned_is_discarded() {
    let discarded = SaveFinish { copy_to_clipboard: false, remove_file: true, notice: SaveNotice::Silent, keep_path: false };
    for copy in [false, true] {
        for auto in [false, true] {
            assert_eq!(finish_save(SaveSettings { copy_to_clipboard: copy, auto_save: auto }, false), discarded);
        }
    }
}

#[test]
fn cleaning_fails_only_when_a_pass_fails() {
    assert!(scrub_succeeded(StripExifResult::Stripped, StripMetadataResult::Stripped));
    assert!(scrub_succeeded(StripExifResult::NoExifFound, StripMetadataResult::NoMetadataFound));
    assert!(!scrub_succeeded(StripExifResult::Failed, StripMetadataResult::Stripped));
    assert!(!scrub_succeeded(StripExifResult::Stripped, StripMetadataResult::Failed));
}

#[test]
fn metadata_strip_outcomes() {
    // Nothing present: nothing to save, nothing found.
    assert!(!strip_metadata_needs_save(&[]));
    assert!(!strip_metadata_needs_save(&[None, None]));
    assert_eq!(strip_metadata_result(&[None, None], false), StripMetadataResult::NoMetadataFound);
    // Every present tag removed: saved means stripped.
    let all = [None, Some(true), Some(true)];
    assert!(strip_metadata_needs_save(&all));
    assert_eq!(strip_metadata_result(&all, true), StripMetadataResult::Stripped);
    assert_eq!(strip_metadata_result(&all, false), StripMetadataResult::Failed);
}

#[test]
fn a_tag_left_behind_fails_the_strip() {
    let partial = [Some(true), Some(false), None];
    assert!(!strip_metadata_needs_save(&partial));
    assert_eq!(strip_metadata_result(&partial, true), StripMetadataResult::Failed);
    assert_eq!(strip_metadata_result(&partial, false), StripMetadataResult::Failed);
    let none_removed = [Some(false), Some(false)];
    assert_eq!(strip_metadata_result(&none_removed, false), StripMetadataResult::Failed);
}
