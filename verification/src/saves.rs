//! The save workflow's decisions: output format and encoder, target directory
//! and file name, what to do with the cleaned file afterwards, which custom
//! data to write, and the buffer layouts of the pixel and clipboard copies.

use vstd::prelude::*;
use crate::config::Config;
use crate::exif::StripExifResult;
use crate::metadata::{Metadata, StripMetadataResult, metadata_from_value};
use crate::text::{trim, spec_trim, lowercase_equals, to_ascii_lowercase};

verus! {

/// A COM class or format identifier.
#[derive(Clone, Copy, Debug)]
pub struct Guid {
    pub data1: u32,
    pub data2: u16,
    pub data3: u16,
    pub data4: [u8; 8],
}

/// Compares two identifiers field by field.
pub fn guid_eq(a: &Guid, b: &Guid) -> (r: bool)
    ensures
        r == (*a == *b),
{
    let mut same = a.data1 == b.data1 && a.data2 == b.data2 && a.data3 == b.data3;
    let mut i: usize = 0;
    while i < 8
        invariant
            i <= 8,
            same == (a.data1 == b.data1 && a.data2 == b.data2 && a.data3 == b.data3 && forall|k: int|
                0 <= k < i ==> a.data4[k] == b.data4[k]),
        decreases 8 - i,
    {
        same = same && a.data4[i] == b.data4[i];
        i = i + 1;
    }
    if same {
        assert(a.data4 =~= b.data4);
    }
    same
}

/// The encoder identifier registered for the first codec whose format
/// identifier is `format`, if any.
pub open spec fn spec_find_encoder(codecs: Seq<(Guid, Guid)>, format: Guid) -> Option<Guid>
    decreases codecs.len(),
{
    if codecs.len() == 0 {
        None
    } else if codecs[0].0 == format {
        Some(codecs[0].1)
    } else {
        spec_find_encoder(codecs.drop_first(), format)
    }
}

/// Finds the encoder identifier matching `format` among the installed
/// `(format identifier, encoder identifier)` pairs.
pub fn find_encoder(codecs: &[(Guid, Guid)], format: &Guid) -> (r: Option<Guid>)
    ensures
        r == spec_find_encoder(codecs@, *format),
{
    let mut i: usize = 0;
    assert(codecs@.subrange(0, codecs@.len() as int) =~= codecs@);
    while i < codecs.len()
        invariant
            i <= codecs@.len(),
            spec_find_encoder(codecs@, *format) == spec_find_encoder(codecs@.subrange(i as int, codecs@.len() as int), *format),
        decreases codecs@.len() - i,
    {
        assert(codecs@.subrange(i as int, codecs@.len() as int).drop_first() =~= codecs@.subrange(i + 1, codecs@.len() as int));
        if guid_eq(&codecs[i].0, format) {
            return Some(codecs[i].1);
        }
        i = i + 1;
    }
    None
}

/// Output image formats, each mapping to a built-in encoder and file extension.
#[derive(Clone, Copy, Debug, PartialEq, Eq, Structural)]
pub enum ImageFormat {
    Png,
    Jpeg,
    Bmp,
}

/// The identifier shared, apart from `data1`, by the built-in image encoders.
pub open spec fn builtin_encoder(data1: u32) -> Guid {
    Guid {
        data1,
        data2: 0x1A04,
        data3: 0x11D3,
        data4: [0x9A, 0x73, 0x00, 0x00, 0xF8, 0x1E, 0xF3, 0x2E],
    }
}

/// The file extension, without the dot, of a format.
pub open spec fn spec_extension(f: ImageFormat) -> Seq<char> {
    match f {
        ImageFormat::Png => "png"@,
        ImageFormat::Jpeg => "jpg"@,
        ImageFormat::Bmp => "bmp"@,
    }
}

/// The format a configured `image_format` value names: `jpeg`/`jpg` and
/// `bmp`/`bitmap` in any ASCII case and with surrounding white space, PNG for
/// anything else.
pub open spec fn spec_format_from_config(value: Seq<char>) -> ImageFormat {
    let v = to_ascii_lowercase(spec_trim(value));
    if v == "jpeg"@ || v == "jpg"@ {
        ImageFormat::Jpeg
    } else if v == "bmp"@ || v == "bitmap"@ {
        ImageFormat::Bmp
    } else {
        ImageFormat::Png
    }
}

impl ImageFormat {
    /// Maps a config `image_format` value to a format, falling back to PNG for
    /// anything unrecognized.
    pub fn from_config(value: &str) -> (f: ImageFormat)
        ensures
            f == spec_format_from_config(value@),
    {
        let v = trim(value);
        if lowercase_equals(v, "jpeg") || lowercase_equals(v, "jpg") {
            ImageFormat::Jpeg
        } else if lowercase_equals(v, "bmp") || lowercase_equals(v, "bitmap") {
            ImageFormat::Bmp
        } else {
            ImageFormat::Png
        }
    }

    /// The identifier of the built-in encoder that writes this format.
    pub fn encoder(&self) -> (g: Guid)
        ensures
            g == builtin_encoder(match self {
                ImageFormat::Png => 0x557C_F406u32,
                ImageFormat::Jpeg => 0x557C_F401u32,
                ImageFormat::Bmp => 0x557C_F400u32,
            }),
    {
        let data1: u32 = match self {
            ImageFormat::Png => 0x557C_F406,
            ImageFormat::Jpeg => 0x557C_F401,
            ImageFormat::Bmp => 0x557C_F400,
        };
        Guid {
            data1,
            data2: 0x1A04,
            data3: 0x11D3,
            data4: [0x9A, 0x73, 0x00, 0x00, 0xF8, 0x1E, 0xF3, 0x2E],
        }
    }

    /// File extension, without the dot, for this format.
    pub fn extension(&self) -> (e: &'static str)
        ensures
            e@ == spec_extension(*self),
    {
        match self {
            ImageFormat::Png => "png",
            ImageFormat::Jpeg => "jpg",
            ImageFormat::Bmp => "bmp",
        }
    }
}

/// The user's configured output format, PNG when no configuration has been
/// saved yet.
pub fn configured_format(config: Option<&Config>) -> (f: ImageFormat)
    ensures
        f == match config {
            Some(c) => spec_format_from_config(c.image_format@),
            None => ImageFormat::Png,
        },
{
    match config {
        Some(c) => ImageFormat::from_config(c.image_format.as_str()),
        None => ImageFormat::Png,
    }
}

/// The name of a saved capture: the random stem, a dot, and the format's
/// extension.
pub fn file_name(stem: &str, format: ImageFormat) -> (name: String)
    ensures
        name@ == stem@ + "."@ + spec_extension(format),
{
    let mut name = stem.to_owned();
    name.append(".");
    name.append(format.extension());
    name
}

/// The directory to save into: the configured `save_directory`, trimmed, when
/// it is not blank; otherwise `fallback`, the built-in images folder (if it
/// could be resolved).
pub fn target_directory(config: Option<&Config>, fallback: Option<String>) -> (dir: Option<String>)
    ensures
        match config {
            Some(c) if spec_trim(c.save_directory@).len() > 0 => dir matches Some(d) && d@
                == spec_trim(c.save_directory@),
            _ => dir == fallback,
        },
{
    if let Some(c) = config {
        let directory = trim(c.save_directory.as_str());
        if directory.unicode_len() > 0 {
            return Some(directory.to_owned());
        }
    }
    fallback
}

/// What happens to a capture after it is encoded.
#[derive(Clone, Copy, Debug, PartialEq, Eq, Structural)]
pub struct SaveSettings {
    pub copy_to_clipboard: bool,
    pub auto_save: bool,
}

/// The save settings of `config`: no clipboard copy and auto-save on when no
/// configuration has been saved.
pub fn save_settings(config: Option<&Config>) -> (s: SaveSettings)
    ensures
        s == match config {
            Some(c) => SaveSettings { copy_to_clipboard: c.copy_to_clipboard, auto_save: c.auto_save },
            None => SaveSettings { copy_to_clipboard: false, auto_save: true },
        },
{
    match config {
        Some(c) => SaveSettings { copy_to_clipboard: c.copy_to_clipboard, auto_save: c.auto_save },
        None => SaveSettings { copy_to_clipboard: false, auto_save: true },
    }
}

/// The notification raised once a capture is saved or copied.
#[derive(Clone, Copy, Debug, PartialEq, Eq, Structural)]
pub enum SaveNotice {
    /// No notification.
    Silent,
    /// The capture is on the clipboard only.
    ClipboardOnly,
    /// The capture is on the clipboard and kept at the saved path.
    ClipboardWithPath,
    /// The capture is kept at the saved path.
    Saved,
}

/// The steps after the cleaned file is written.
#[derive(Clone, Copy, Debug, PartialEq, Eq, Structural)]
pub struct SaveFinish {
    /// Copy the cleaned file to the clipboard.
    pub copy_to_clipboard: bool,
    /// Remove the cleaned file afterwards.
    pub remove_file: bool,
    /// The notification to raise.
    pub notice: SaveNotice,
    /// Hand the saved path back to the caller.
    pub keep_path: bool,
}

/// Whether the written capture was cleaned: neither the EXIF nor the
/// authoring-metadata pass failed (finding nothing to remove is a success).
pub fn scrub_succeeded(exif: StripExifResult, metadata: StripMetadataResult) -> (ok: bool)
    ensures
        ok == (exif != StripExifResult::Failed && metadata != StripMetadataResult::Failed),
{
    exif != StripExifResult::Failed && metadata != StripMetadataResult::Failed
}

/// The steps after the cleaned file is written: the file is always written
/// first so the clipboard copy reads the stripped result, and removed again
/// when auto-save is off. A capture whose cleaning failed is never copied,
/// kept or announced: it is removed.
pub fn finish_save(settings: SaveSettings, scrubbed: bool) -> (f: SaveFinish)
    ensures
        !scrubbed ==> f == (SaveFinish {
            copy_to_clipboard: false,
            remove_file: true,
            notice: SaveNotice::Silent,
            keep_path: false,
        }),
        scrubbed ==> {
            &&& f.copy_to_clipboard == settings.copy_to_clipboard
            &&& f.remove_file == !settings.auto_save
            &&& f.keep_path == settings.auto_save
            &&& f.notice == if settings.auto_save {
                if settings.copy_to_clipboard { SaveNotice::ClipboardWithPath } else { SaveNotice::Saved }
            } else if settings.copy_to_clipboard {
                SaveNotice::ClipboardOnly
            } else {
                SaveNotice::Silent
            }
        },
{
    if !scrubbed {
        return SaveFinish { copy_to_clipboard: false, remove_file: true, notice: SaveNotice::Silent, keep_path: false };
    }
    let notice = if settings.auto_save {
        if settings.copy_to_clipboard { SaveNotice::ClipboardWithPath } else { SaveNotice::Saved }
    } else if settings.copy_to_clipboard {
        SaveNotice::ClipboardOnly
    } else {
        SaveNotice::Silent
    };
    SaveFinish {
        copy_to_clipboard: settings.copy_to_clipboard,
        remove_file: !settings.auto_save,
        notice,
        keep_path: settings.auto_save,
    }
}

/// The custom data to write after cleaning.
#[derive(Debug)]
pub struct CustomDataPlan {
    /// The value for the camera EXIF tags.
    pub exif: Option<String>,
    /// The metadata for the authoring tags.
    pub metadata: Option<Metadata>,
}

/// The custom data to write after cleaning: nothing unless a configuration
/// enables it; then the trimmed EXIF value when not blank, and the trimmed
/// metadata value on every authoring tag when not blank.
pub fn apply_custom_data(config: Option<&Config>) -> (p: CustomDataPlan)
    ensures
        match config {
            Some(c) if c.fill_custom_data => {
                &&& (spec_trim(c.custom_data.exif@).len() > 0 <==> p.exif is Some)
                &&& (p.exif matches Some(v) ==> v@ == spec_trim(c.custom_data.exif@))
                &&& (spec_trim(c.custom_data.metadata@).len() > 0 <==> p.metadata is Some)
                &&& (p.metadata matches Some(m) ==> {
                    let v = spec_trim(c.custom_data.metadata@);
                    &&& m.document_name matches Some(t) && t@ == v
                    &&& m.description matches Some(t) && t@ == v
                    &&& m.software matches Some(t) && t@ == v
                    &&& m.date_time matches Some(t) && t@ == v
                    &&& m.artist matches Some(t) && t@ == v
                    &&& m.host_computer matches Some(t) && t@ == v
                    &&& m.copyright matches Some(t) && t@ == v
                    &&& m.title matches Some(t) && t@ == v
                    &&& m.comment matches Some(t) && t@ == v
                    &&& m.author matches Some(t) && t@ == v
                    &&& m.keywords matches Some(t) && t@ == v
                    &&& m.subject matches Some(t) && t@ == v
                })
            },
            _ => p.exif is None && p.metadata is None,
        },
{
    let c = match config {
        Some(c) => c,
        None => return CustomDataPlan { exif: None, metadata: None },
    };
    if !c.fill_custom_data {
        return CustomDataPlan { exif: None, metadata: None };
    }
    let exif_value = trim(c.custom_data.exif.as_str());
    let exif = if exif_value.unicode_len() > 0 { Some(exif_value.to_owned()) } else { None };
    let metadata_value = trim(c.custom_data.metadata.as_str());
    let metadata = if metadata_value.unicode_len() > 0 {
        Some(metadata_from_value(metadata_value))
    } else {
        None
    };
    CustomDataPlan { exif, metadata }
}

} // verus!
