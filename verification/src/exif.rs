//! Deciding how EXIF metadata leaves a photo file, and the property items that
//! replace the camera tags with a custom value.

use vstd::prelude::*;
use vstd::string::StringSliceAdditionalSpecFns;
use vstd::utf8::encode_utf8;
use crate::jpeg::{strip_jpeg_exif_bytes, spec_strip_jpeg_exif};
use crate::metadata::{PropertyItem, item_view, TYPE_ASCII, TAG_SOFTWARE};
use crate::text::{bytes_of, trim, spec_trim};

verus! {

/// Camera make (ASCII).
pub const TAG_MAKE: u32 = 0x010F;
/// Camera model (ASCII).
pub const TAG_MODEL: u32 = 0x0110;
/// Original date and time (ASCII).
pub const TAG_DATE_TIME_ORIGINAL: u32 = 0x9003;

/// Outcome of stripping EXIF metadata from a photo file.
#[derive(Clone, Copy, Debug, PartialEq, Eq, Structural)]
pub enum StripExifResult {
    /// The image could not be read, parsed, or written.
    Failed,
    /// The image had no EXIF metadata; the file was left untouched.
    NoExifFound,
    /// EXIF metadata was found and removed, and the file was rewritten in place.
    Stripped,
}

/// What to do with a photo file to strip its EXIF metadata.
#[derive(Debug)]
pub enum ExifStripPlan {
    /// Not a JPEG: re-encode it through the imaging backend without its
    /// property items.
    Reencode,
    /// Nothing is written; the outcome is final.
    Finished(StripExifResult),
    /// Replace the file with these bytes, which are the JPEG without its EXIF
    /// segments.
    Replace(Vec<u8>),
}

/// The file starts with the JPEG signature `FF D8 FF`.
pub open spec fn spec_is_jpeg(header: Seq<u8>) -> bool {
    header.len() >= 3 && header[0] == 0xFF && header[1] == 0xD8 && header[2] == 0xFF
}

/// Returns `true` if `header`, the first bytes of a file, begins with the JPEG
/// signature.
pub fn is_jpeg(header: &[u8]) -> (r: bool)
    ensures
        r == spec_is_jpeg(header@),
{
    header.len() >= 3 && header[0] == 0xFF && header[1] == 0xD8 && header[2] == 0xFF
}

/// Decides how the EXIF metadata leaves the photo whose contents are `file`:
/// JPEG files are stripped losslessly, keeping every other segment; other
/// formats are re-encoded. A JPEG without EXIF segments is left untouched and
/// a JPEG that cannot be scanned fails.
pub fn strip_exif(file: &[u8]) -> (plan: ExifStripPlan)
    ensures
        !spec_is_jpeg(file@) ==> plan is Reencode,
        spec_is_jpeg(file@) ==> match spec_strip_jpeg_exif(file@) {
            Err(_) => plan == ExifStripPlan::Finished(StripExifResult::Failed),
            Ok((bytes, removed)) => if removed {
                plan matches ExifStripPlan::Replace(out) && out@ == bytes
            } else {
                plan == ExifStripPlan::Finished(StripExifResult::NoExifFound)
            },
        },
{
    if !is_jpeg(file) {
        return ExifStripPlan::Reencode;
    }
    match strip_jpeg_exif_bytes(file) {
        Err(_) => ExifStripPlan::Finished(StripExifResult::Failed),
        Ok(stripped) => if stripped.removed {
            ExifStripPlan::Replace(stripped.bytes)
        } else {
            ExifStripPlan::Finished(StripExifResult::NoExifFound)
        },
    }
}

/// Every property-item removal of a re-encoded image succeeded.
pub open spec fn all_succeeded(removed: Seq<bool>) -> bool {
    forall|i: int| 0 <= i < removed.len() ==> #[trigger] removed[i]
}

/// The outcome of re-encoding an image without its property items, from the
/// result of removing each item it carried and whether the image was saved:
/// nothing found when it carried none, stripped only when every removal and
/// the save succeeded, failed otherwise.
pub open spec fn spec_reencode_result(removed: Seq<bool>, saved: bool) -> StripExifResult {
    if removed.len() == 0 {
        StripExifResult::NoExifFound
    } else if all_succeeded(removed) && saved {
        StripExifResult::Stripped
    } else {
        StripExifResult::Failed
    }
}

/// Whether every removal in `removed` succeeded.
fn every_removal_succeeded(removed: &[bool]) -> (r: bool)
    ensures
        r == all_succeeded(removed@),
{
    let mut i: usize = 0;
    while i < removed.len()
        invariant
            i <= removed@.len(),
            forall|k: int| 0 <= k < i ==> removed@[k],
        decreases removed@.len() - i,
    {
        if !removed[i] {
            return false;
        }
        i = i + 1;
    }
    true
}

/// Whether a re-encoded image has to be saved: it carried property items and
/// every one was removed. When a removal failed nothing is written.
pub fn reencode_needs_save(removed: &[bool]) -> (save: bool)
    ensures
        save == (removed@.len() > 0 && all_succeeded(removed@)),
{
    removed.len() > 0 && every_removal_succeeded(removed)
}

/// The outcome of re-encoding an image without its property items.
pub fn reencode_result(removed: &[bool], saved: bool) -> (r: StripExifResult)
    ensures
        r == spec_reencode_result(removed@, saved),
{
    if removed.len() == 0 {
        StripExifResult::NoExifFound
    } else if every_removal_succeeded(removed) && saved {
        StripExifResult::Stripped
    } else {
        StripExifResult::Failed
    }
}

/// Printable ASCII: neither a control byte nor outside ASCII.
pub open spec fn is_printable_ascii(b: u8) -> bool {
    0x20 <= b <= 0x7E
}

/// The printable ASCII bytes of `bytes`, in order.
pub open spec fn printable_only(bytes: Seq<u8>) -> Seq<u8>
    decreases bytes.len(),
{
    if bytes.len() == 0 {
        Seq::empty()
    } else if is_printable_ascii(bytes.last()) {
        printable_only(bytes.drop_last()).push(bytes.last())
    } else {
        printable_only(bytes.drop_last())
    }
}

/// The value of an ASCII property carrying `text`: its printable ASCII bytes
/// and a terminating NUL, or nothing when no printable byte remains.
pub open spec fn spec_ascii_property_value(text: Seq<char>) -> Option<Seq<u8>> {
    let kept = printable_only(encode_utf8(text));
    if kept.len() == 0 { None } else { Some(kept.push(0)) }
}

/// Builds the value of an ASCII property from `text`, dropping every byte that
/// is not printable ASCII.
pub fn ascii_property_value(text: &str) -> (r: Option<Vec<u8>>)
    ensures
        match spec_ascii_property_value(text@) {
            Some(v) => r matches Some(b) && b@ == v,
            None => r is None,
        },
{
    let all = bytes_of(text);
    let mut kept: Vec<u8> = Vec::new();
    let mut i: usize = 0;
    while i < all.len()
        invariant
            i <= all@.len(),
            all@ == encode_utf8(text@),
            kept@ == printable_only(all@.subrange(0, i as int)),
        decreases all@.len() - i,
    {
        let b = all[i];
        assert(all@.subrange(0, i + 1).drop_last() =~= all@.subrange(0, i as int));
        if 0x20 <= b && b <= 0x7E {
            kept.push(b);
        }
        i = i + 1;
    }
    assert(all@.subrange(0, all@.len() as int) =~= all@);
    if kept.len() == 0 {
        None
    } else {
        kept.push(0);
        Some(kept)
    }
}

/// Keeping the printable bytes is filtering by `0x20 <= b <= 0x7E`.
proof fn lemma_printable_is_filter(bytes: Seq<u8>)
    ensures
        printable_only(bytes) == bytes.filter(|b: u8| 0x20 <= b && b <= 0x7E),
    decreases bytes.len(),
{
    reveal_with_fuel(Seq::filter, 1);
    if bytes.len() > 0 {
        lemma_printable_is_filter(bytes.drop_last());
    }
}

/// The value of an ASCII property keeps exactly the UTF-8 bytes of the text
/// that are printable ASCII (`0x20` to `0x7E`), in order, and ends with a NUL;
/// there is no value when no such byte is left. Text that is printable ASCII
/// throughout is kept whole.
pub proof fn law_ascii_value_keeps_the_printable_bytes(text: Seq<char>)
    ensures
        ({
            let kept = encode_utf8(text).filter(|b: u8| 0x20 <= b && b <= 0x7E);
            spec_ascii_property_value(text) == if kept.len() == 0 {
                None::<Seq<u8>>
            } else {
                Some(kept.push(0))
            }
        }),
        (forall|k: int| 0 <= k < encode_utf8(text).len() ==> 0x20 <= #[trigger] encode_utf8(text)[k] <= 0x7E)
            && encode_utf8(text).len() > 0 ==> spec_ascii_property_value(text) == Some(encode_utf8(text).push(0)),
{
    let bytes = encode_utf8(text);
    lemma_printable_is_filter(bytes);
    if (forall|k: int| 0 <= k < bytes.len() ==> 0x20 <= #[trigger] bytes[k] <= 0x7E) && bytes.len() > 0 {
        lemma_filter_keeps_all(bytes);
    }
}

/// Filtering bytes that all pass the printable test keeps them all.
proof fn lemma_filter_keeps_all(bytes: Seq<u8>)
    requires
        forall|k: int| 0 <= k < bytes.len() ==> 0x20 <= #[trigger] bytes[k] <= 0x7E,
    ensures
        bytes.filter(|b: u8| 0x20 <= b && b <= 0x7E) == bytes,
    decreases bytes.len(),
{
    reveal_with_fuel(Seq::filter, 1);
    if bytes.len() > 0 {
        let init = bytes.drop_last();
        assert forall|k: int| 0 <= k < init.len() implies 0x20 <= #[trigger] init[k] <= 0x7E by {
            assert(init[k] == bytes[k]);
        }
        lemma_filter_keeps_all(init);
        assert(bytes.last() == bytes[bytes.len() - 1]);
        assert(init.push(bytes.last()) =~= bytes);
    }
}

/// The tags that carry the custom EXIF value.
pub open spec fn custom_exif_tags() -> Seq<u32> {
    seq![TAG_MAKE, TAG_MODEL, TAG_SOFTWARE, TAG_DATE_TIME_ORIGINAL]
}

/// The property items that replace the camera make, model, software and
/// original date with `value`: none when `value` is blank or keeps no
/// printable ASCII byte, otherwise one ASCII item per tag.
pub open spec fn spec_custom_exif_items(value: Seq<char>) -> Seq<(u32, u16, Seq<u8>)> {
    let text = spec_trim(value);
    if text.len() == 0 {
        Seq::empty()
    } else {
        match spec_ascii_property_value(text) {
            None => Seq::empty(),
            Some(v) => custom_exif_tags().map_values(|id: u32| (id, TYPE_ASCII, v)),
        }
    }
}

/// The custom EXIF items carry the trimmed value's printable ASCII bytes and
/// a NUL on the make, model, software and original-date tags, in that order;
/// nothing is written when no printable byte is left.
pub proof fn law_custom_exif_keeps_the_printable_bytes(value: Seq<char>)
    ensures
        ({
            let text = spec_trim(value);
            let kept = encode_utf8(text).filter(|b: u8| 0x20 <= b && b <= 0x7E);
            let items = spec_custom_exif_items(value);
            &&& (text.len() == 0 || kept.len() == 0) ==> items.len() == 0
            &&& (text.len() > 0 && kept.len() > 0) ==> {
                &&& items.len() == 4
                &&& items[0].0 == 0x010Fu32 && items[1].0 == 0x0110u32
                &&& items[2].0 == 0x0131u32 && items[3].0 == 0x9003u32
                &&& forall|k: int| 0 <= k < 4 ==> #[trigger] items[k].1 == 2u16 && items[k].2 == kept.push(0)
            }
        }),
{
    law_ascii_value_keeps_the_printable_bytes(spec_trim(value));
}

/// The property items that write the replacement `value` to the text-based
/// EXIF tags (make, model, software, and original date/time). Nothing is
/// written when the trimmed value is empty or keeps no printable ASCII byte.
pub fn write_custom_exif(value: &str) -> (items: Vec<PropertyItem>)
    ensures
        items@.map_values(|p: PropertyItem| item_view(p)) == spec_custom_exif_items(value@),
{
    let text = trim(value);
    let mut items: Vec<PropertyItem> = Vec::new();
    if text.unicode_len() == 0 {
        assert(items@.map_values(|p: PropertyItem| item_view(p)) =~= Seq::empty());
        return items;
    }
    match ascii_property_value(text) {
        None => {
            assert(items@.map_values(|p: PropertyItem| item_view(p)) =~= Seq::empty());
        },
        Some(bytes) => {
            items.push(PropertyItem { id: TAG_MAKE, value_type: TYPE_ASCII, value: bytes.clone() });
            items.push(PropertyItem { id: TAG_MODEL, value_type: TYPE_ASCII, value: bytes.clone() });
            items.push(PropertyItem { id: TAG_SOFTWARE, value_type: TYPE_ASCII, value: bytes.clone() });
            items.push(PropertyItem { id: TAG_DATE_TIME_ORIGINAL, value_type: TYPE_ASCII, value: bytes });
            assert(items@.map_values(|p: PropertyItem| item_view(p)) =~= spec_custom_exif_items(value@));
        },
    }
    items
}

} // verus!
