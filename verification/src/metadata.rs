//! The identity-revealing authoring metadata of an image (artist, copyright,
//! software, host machine and the Windows "Details" tags) and the property
//! items that write it.

use vstd::prelude::*;
use vstd::utf8::encode_utf8;
use crate::text::{bytes_of, chars_of};

verus! {

/// Document name (ASCII).
pub const TAG_DOCUMENT_NAME: u32 = 0x010D;
/// Image description (ASCII).
pub const TAG_IMAGE_DESCRIPTION: u32 = 0x010E;
/// Software (ASCII).
pub const TAG_SOFTWARE: u32 = 0x0131;
/// Date and time (ASCII).
pub const TAG_DATE_TIME: u32 = 0x0132;
/// Artist (ASCII).
pub const TAG_ARTIST: u32 = 0x013B;
/// Host computer (ASCII).
pub const TAG_HOST_COMPUTER: u32 = 0x013C;
/// Copyright (ASCII).
pub const TAG_COPYRIGHT: u32 = 0x8298;
/// Windows "Details" title (UTF-16).
pub const TAG_XP_TITLE: u32 = 0x9C9B;
/// Windows "Details" comment (UTF-16).
pub const TAG_XP_COMMENT: u32 = 0x9C9C;
/// Windows "Details" author (UTF-16).
pub const TAG_XP_AUTHOR: u32 = 0x9C9D;
/// Windows "Details" keywords (UTF-16).
pub const TAG_XP_KEYWORDS: u32 = 0x9C9E;
/// Windows "Details" subject (UTF-16).
pub const TAG_XP_SUBJECT: u32 = 0x9C9F;

/// Property value type: raw bytes.
pub const TYPE_BYTE: u16 = 1;
/// Property value type: NUL-terminated ASCII.
pub const TYPE_ASCII: u16 = 2;

/// One property item to set on an image: its tag, value type and raw value.
#[derive(Clone, Debug)]
pub struct PropertyItem {
    pub id: u32,
    pub value_type: u16,
    pub value: Vec<u8>,
}

/// A property item over mathematical values.
pub open spec fn item_view(p: PropertyItem) -> (u32, u16, Seq<u8>) {
    (p.id, p.value_type, p.value@)
}

/// The common authoring metadata points carried by an image. Every field is
/// optional because any individual tag may be absent. `title` through
/// `subject` are the Windows "Details" tags.
#[derive(Clone, Debug)]
pub struct Metadata {
    pub document_name: Option<String>,
    pub description: Option<String>,
    pub software: Option<String>,
    pub date_time: Option<String>,
    pub artist: Option<String>,
    pub host_computer: Option<String>,
    pub copyright: Option<String>,
    pub title: Option<String>,
    pub comment: Option<String>,
    pub author: Option<String>,
    pub keywords: Option<String>,
    pub subject: Option<String>,
}

impl Default for Metadata {
    /// Metadata with every field absent.
    fn default() -> (m: Self)
        ensures
            m.document_name is None && m.description is None && m.software is None
                && m.date_time is None && m.artist is None && m.host_computer is None
                && m.copyright is None && m.title is None && m.comment is None && m.author is None
                && m.keywords is None && m.subject is None,
    {
        Metadata {
            document_name: None,
            description: None,
            software: None,
            date_time: None,
            artist: None,
            host_computer: None,
            copyright: None,
            title: None,
            comment: None,
            author: None,
            keywords: None,
            subject: None,
        }
    }
}

/// Outcome of stripping the modeled metadata tags from an image.
#[derive(Clone, Copy, Debug, PartialEq, Eq, Structural)]
pub enum StripMetadataResult {
    /// The image could not be read, edited, or written.
    Failed,
    /// The image carried none of the modeled tags; the file was left untouched.
    NoMetadataFound,
    /// Modeled tags were found and removed, and the file was rewritten in place.
    Stripped,
}

/// Some modeled tag was on the image. Entry `i` of `removals` is `None` when
/// the `i`-th modeled tag was absent, and otherwise whether its removal
/// succeeded.
pub open spec fn any_present(removals: Seq<Option<bool>>) -> bool {
    exists|i: int| 0 <= i < removals.len() && removals[i] is Some
}

/// Every modeled tag that was on the image was removed.
pub open spec fn all_removed(removals: Seq<Option<bool>>) -> bool {
    forall|i: int| 0 <= i < removals.len() && #[trigger] removals[i] is Some ==> removals[i] == Some(true)
}

/// The outcome of stripping the modeled tags: nothing found exactly when no
/// modeled tag was present; stripped only when every present tag was removed
/// and the re-encoded image was saved; failed otherwise.
pub open spec fn spec_strip_metadata_result(removals: Seq<Option<bool>>, saved: bool) -> StripMetadataResult {
    if !any_present(removals) {
        StripMetadataResult::NoMetadataFound
    } else if all_removed(removals) && saved {
        StripMetadataResult::Stripped
    } else {
        StripMetadataResult::Failed
    }
}

/// Whether the image has to be saved after the per-tag removals: some modeled
/// tag was present and every present one was removed. When a removal failed
/// nothing is written, so the file keeps its bytes.
pub fn strip_metadata_needs_save(removals: &[Option<bool>]) -> (save: bool)
    ensures
        save == (any_present(removals@) && all_removed(removals@)),
{
    let mut present = false;
    let mut i: usize = 0;
    while i < removals.len()
        invariant
            i <= removals@.len(),
            present == exists|k: int| 0 <= k < i && removals@[k] is Some,
            forall|k: int| 0 <= k < i && #[trigger] removals@[k] is Some ==> removals@[k] == Some(true),
        decreases removals@.len() - i,
    {
        match removals[i] {
            Some(true) => {
                present = true;
            },
            Some(false) => {
                assert(!all_removed(removals@));
                return false;
            },
            None => {},
        }
        i = i + 1;
    }
    present
}

/// The outcome of stripping the modeled tags, from the per-tag `removals`
/// and whether the re-encoded image was `saved`.
pub fn strip_metadata_result(removals: &[Option<bool>], saved: bool) -> (r: StripMetadataResult)
    ensures
        r == spec_strip_metadata_result(removals@, saved),
{
    let mut present = false;
    let mut all = true;
    let mut i: usize = 0;
    while i < removals.len()
        invariant
            i <= removals@.len(),
            present == exists|k: int| 0 <= k < i && removals@[k] is Some,
            all == forall|k: int| 0 <= k < i && #[trigger] removals@[k] is Some ==> removals@[k] == Some(true),
        decreases removals@.len() - i,
    {
        match removals[i] {
            Some(true) => {
                present = true;
            },
            Some(false) => {
                present = true;
                all = false;
            },
            None => {},
        }
        i = i + 1;
    }
    if !present {
        StripMetadataResult::NoMetadataFound
    } else if all && saved {
        StripMetadataResult::Stripped
    } else {
        StripMetadataResult::Failed
    }
}

/// A successful strip leaves no modeled tag on the image: every tag that was
/// present was removed and the result was saved. Nothing is reported found
/// only when no modeled tag was present.
pub proof fn law_stripped_leaves_no_modeled_tag(removals: Seq<Option<bool>>, saved: bool)
    ensures
        spec_strip_metadata_result(removals, saved) == StripMetadataResult::Stripped ==> saved
            && forall|i: int| 0 <= i < removals.len() ==> removals[i] != Some(false),
        spec_strip_metadata_result(removals, saved) == StripMetadataResult::NoMetadataFound
            <==> forall|i: int| 0 <= i < removals.len() ==> removals[i] is None,
        (exists|i: int| 0 <= i < removals.len() && removals[i] == Some(false))
            ==> spec_strip_metadata_result(removals, saved) == StripMetadataResult::Failed,
{
    assert forall|i: int| 0 <= i < removals.len() && all_removed(removals) implies removals[i] != Some(false) by {
        if removals[i] is Some {
            assert(removals[i] == Some(true));
        }
    }
}

/// Every modeled tag, in the order they are stripped.
pub open spec fn spec_common_tags() -> Seq<u32> {
    seq![
        TAG_DOCUMENT_NAME,
        TAG_IMAGE_DESCRIPTION,
        TAG_SOFTWARE,
        TAG_DATE_TIME,
        TAG_ARTIST,
        TAG_HOST_COMPUTER,
        TAG_COPYRIGHT,
        TAG_XP_TITLE,
        TAG_XP_COMMENT,
        TAG_XP_AUTHOR,
        TAG_XP_KEYWORDS,
        TAG_XP_SUBJECT,
    ]
}

/// Every modeled tag, used when stripping all common metadata at once.
pub fn common_tags() -> (tags: [u32; 12])
    ensures
        tags@ == spec_common_tags(),
{
    let tags = [
        TAG_DOCUMENT_NAME,
        TAG_IMAGE_DESCRIPTION,
        TAG_SOFTWARE,
        TAG_DATE_TIME,
        TAG_ARTIST,
        TAG_HOST_COMPUTER,
        TAG_COPYRIGHT,
        TAG_XP_TITLE,
        TAG_XP_COMMENT,
        TAG_XP_AUTHOR,
        TAG_XP_KEYWORDS,
        TAG_XP_SUBJECT,
    ];
    assert(tags@ =~= spec_common_tags());
    tags
}

/// Builds a metadata payload whose every tag carries `value`.
pub fn metadata_from_value(value: &str) -> (m: Metadata)
    ensures
        m.document_name matches Some(t) && t@ == value@,
        m.description matches Some(t) && t@ == value@,
        m.software matches Some(t) && t@ == value@,
        m.date_time matches Some(t) && t@ == value@,
        m.artist matches Some(t) && t@ == value@,
        m.host_computer matches Some(t) && t@ == value@,
        m.copyright matches Some(t) && t@ == value@,
        m.title matches Some(t) && t@ == value@,
        m.comment matches Some(t) && t@ == value@,
        m.author matches Some(t) && t@ == value@,
        m.keywords matches Some(t) && t@ == value@,
        m.subject matches Some(t) && t@ == value@,
{
    let value = value.to_owned();
    Metadata {
        document_name: Some(value.clone()),
        description: Some(value.clone()),
        software: Some(value.clone()),
        date_time: Some(value.clone()),
        artist: Some(value.clone()),
        host_computer: Some(value.clone()),
        copyright: Some(value.clone()),
        title: Some(value.clone()),
        comment: Some(value.clone()),
        author: Some(value.clone()),
        keywords: Some(value.clone()),
        subject: Some(value),
    }
}

/// The UTF-16 code units of `c`, each little-endian.
pub open spec fn char_utf16le(c: char) -> Seq<u8> {
    let v = c as u32 as int;
    if v < 0x10000 {
        seq![(v % 256) as u8, (v / 256) as u8]
    } else {
        let hi = 0xD800 + (v - 0x10000) / 0x400;
        let lo = 0xDC00 + (v - 0x10000) % 0x400;
        seq![(hi % 256) as u8, (hi / 256) as u8, (lo % 256) as u8, (lo / 256) as u8]
    }
}

/// `s` encoded as little-endian UTF-16.
pub open spec fn utf16le(s: Seq<char>) -> Seq<u8>
    decreases s.len(),
{
    if s.len() == 0 {
        Seq::empty()
    } else {
        utf16le(s.drop_last()) + char_utf16le(s.last())
    }
}

/// Text of characters below U+10000 is written one UTF-16 code unit per
/// character, low byte first.
proof fn lemma_utf16le_bmp(s: Seq<char>)
    requires
        forall|k: int| #![trigger s[k]] 0 <= k < s.len() ==> (s[k] as u32) < 0x10000,
    ensures
        utf16le(s).len() == 2 * s.len(),
        forall|k: int| 0 <= k < s.len() ==> {
            &&& utf16le(s)[2 * k] == (s[k] as u32 % 256) as u8
            &&& utf16le(s)[2 * k + 1] == (s[k] as u32 / 256) as u8
        },
    decreases s.len(),
{
    if s.len() > 0 {
        let init = s.drop_last();
        assert forall|k: int| #![trigger init[k]] 0 <= k < init.len() implies (init[k] as u32) < 0x10000 by {
            assert(init[k] == s[k]);
        }
        lemma_utf16le_bmp(init);
        assert(s.last() == s[s.len() - 1]);
        let v = s.last() as u32 as int;
        assert(char_utf16le(s.last()) == seq![(v % 256) as u8, (v / 256) as u8]);
        assert forall|k: int| 0 <= k < s.len() implies utf16le(s)[2 * k] == (s[k] as u32 % 256) as u8
            && utf16le(s)[2 * k + 1] == (s[k] as u32 / 256) as u8 by {
            if k < s.len() - 1 {
                assert(init[k] == s[k]);
            }
        }
    }
}

/// The value of a Windows "Details" tag whose text lies below U+10000 is each
/// character's code unit, low byte first, then a NUL unit: `2n + 2` bytes for
/// `n` characters.
pub proof fn law_details_value_is_utf16_little_endian(text: Seq<char>)
    requires
        forall|k: int| #![trigger text[k]] 0 <= k < text.len() ==> (text[k] as u32) < 0x10000,
    ensures
        xp_value(text).len() == 2 * text.len() + 2,
        forall|k: int| 0 <= k < text.len() ==> {
            &&& xp_value(text)[2 * k] == (text[k] as u32 % 256) as u8
            &&& xp_value(text)[2 * k + 1] == (text[k] as u32 / 256) as u8
        },
        xp_value(text)[2 * text.len() as int] == 0 && xp_value(text)[2 * text.len() + 1int] == 0,
{
    lemma_utf16le_bmp(text);
}

/// The value of an ASCII tag: the text's bytes and a terminating NUL.
pub open spec fn ascii_value(text: Seq<char>) -> Seq<u8> {
    encode_utf8(text).push(0)
}

/// The value of a Windows "Details" tag: the text in little-endian UTF-16 and
/// a terminating NUL unit.
pub open spec fn xp_value(text: Seq<char>) -> Seq<u8> {
    utf16le(text) + seq![0u8, 0u8]
}

/// The item for an ASCII tag when its value is present.
pub open spec fn ascii_entry(id: u32, value: Option<String>) -> Seq<(u32, u16, Seq<u8>)> {
    match value {
        Some(text) => seq![(id, TYPE_ASCII, ascii_value(text@))],
        None => Seq::empty(),
    }
}

/// The item for a Windows "Details" tag when its value is present.
pub open spec fn xp_entry(id: u32, value: Option<String>) -> Seq<(u32, u16, Seq<u8>)> {
    match value {
        Some(text) => seq![(id, TYPE_BYTE, xp_value(text@))],
        None => Seq::empty(),
    }
}

/// The property items that write `m`: one per present field, in field order.
pub open spec fn spec_metadata_items(m: Metadata) -> Seq<(u32, u16, Seq<u8>)> {
    ascii_entry(TAG_DOCUMENT_NAME, m.document_name)
        + ascii_entry(TAG_IMAGE_DESCRIPTION, m.description)
        + ascii_entry(TAG_SOFTWARE, m.software)
        + ascii_entry(TAG_DATE_TIME, m.date_time)
        + ascii_entry(TAG_ARTIST, m.artist)
        + ascii_entry(TAG_HOST_COMPUTER, m.host_computer)
        + ascii_entry(TAG_COPYRIGHT, m.copyright)
        + xp_entry(TAG_XP_TITLE, m.title)
        + xp_entry(TAG_XP_COMMENT, m.comment)
        + xp_entry(TAG_XP_AUTHOR, m.author)
        + xp_entry(TAG_XP_KEYWORDS, m.keywords)
        + xp_entry(TAG_XP_SUBJECT, m.subject)
}

/// Encodes `text` as little-endian UTF-16.
fn encode_utf16le(text: &str) -> (bytes: Vec<u8>)
    ensures
        bytes@ == utf16le(text@),
{
    let chars = chars_of(text);
    let mut bytes: Vec<u8> = Vec::new();
    let mut i: usize = 0;
    while i < chars.len()
        invariant
            i <= chars@.len(),
            chars@ == text@,
            bytes@ == utf16le(chars@.subrange(0, i as int)),
        decreases chars@.len() - i,
    {
        let v = chars[i] as u32;
        let ghost before = bytes@;
        if v < 0x10000 {
            bytes.push((v % 256) as u8);
            bytes.push((v / 256) as u8);
        } else {
            let hi = 0xD800 + (v - 0x10000) / 0x400;
            let lo = 0xDC00 + (v - 0x10000) % 0x400;
            bytes.push((hi % 256) as u8);
            bytes.push((hi / 256) as u8);
            bytes.push((lo % 256) as u8);
            bytes.push((lo / 256) as u8);
        }
        assert(chars@.subrange(0, i + 1).drop_last() =~= chars@.subrange(0, i as int));
        assert(bytes@ =~= before + char_utf16le(chars@[i as int]));
        i = i + 1;
    }
    assert(chars@.subrange(0, chars@.len() as int) =~= chars@);
    bytes
}

fn push_ascii_item(items: &mut Vec<PropertyItem>, id: u32, value: &Option<String>)
    ensures
        final(items)@.map_values(|p: PropertyItem| item_view(p))
            == old(items)@.map_values(|p: PropertyItem| item_view(p)) + ascii_entry(id, *value),
{
    let ghost before = items@.map_values(|p: PropertyItem| item_view(p));
    match value {
        Some(text) => {
            let mut bytes = bytes_of(text.as_str());
            bytes.push(0);
            items.push(PropertyItem { id, value_type: TYPE_ASCII, value: bytes });
            assert(items@.map_values(|p: PropertyItem| item_view(p)) =~= before + ascii_entry(id, *value));
        },
        None => {
            assert(before + ascii_entry(id, *value) =~= before);
        },
    }
}

fn push_xp_item(items: &mut Vec<PropertyItem>, id: u32, value: &Option<String>)
    ensures
        final(items)@.map_values(|p: PropertyItem| item_view(p))
            == old(items)@.map_values(|p: PropertyItem| item_view(p)) + xp_entry(id, *value),
{
    let ghost before = items@.map_values(|p: PropertyItem| item_view(p));
    match value {
        Some(text) => {
            let mut bytes = encode_utf16le(text.as_str());
            let ghost encoded = bytes@;
            bytes.push(0);
            bytes.push(0);
            assert(bytes@ =~= xp_value(text@));
            items.push(PropertyItem { id, value_type: TYPE_BYTE, value: bytes });
            assert(items@.map_values(|p: PropertyItem| item_view(p)) =~= before + xp_entry(id, *value));
        },
        None => {
            assert(before + xp_entry(id, *value) =~= before);
        },
    }
}

/// The property items that write the supplied metadata fields onto an image:
/// only present fields are written, the authoring tags as NUL-terminated ASCII
/// and the "Details" tags as NUL-terminated little-endian UTF-16.
pub fn write_metadata(metadata: &Metadata) -> (items: Vec<PropertyItem>)
    ensures
        items@.map_values(|p: PropertyItem| item_view(p)) == spec_metadata_items(*metadata),
{
    let mut items: Vec<PropertyItem> = Vec::new();
    assert(items@.map_values(|p: PropertyItem| item_view(p)) =~= Seq::empty());
    push_ascii_item(&mut items, TAG_DOCUMENT_NAME, &metadata.document_name);
    push_ascii_item(&mut items, TAG_IMAGE_DESCRIPTION, &metadata.description);
    push_ascii_item(&mut items, TAG_SOFTWARE, &metadata.software);
    push_ascii_item(&mut items, TAG_DATE_TIME, &metadata.date_time);
    push_ascii_item(&mut items, TAG_ARTIST, &metadata.artist);
    push_ascii_item(&mut items, TAG_HOST_COMPUTER, &metadata.host_computer);
    push_ascii_item(&mut items, TAG_COPYRIGHT, &metadata.copyright);
    push_xp_item(&mut items, TAG_XP_TITLE, &metadata.title);
    push_xp_item(&mut items, TAG_XP_COMMENT, &metadata.comment);
    push_xp_item(&mut items, TAG_XP_AUTHOR, &metadata.author);
    push_xp_item(&mut items, TAG_XP_KEYWORDS, &metadata.keywords);
    push_xp_item(&mut items, TAG_XP_SUBJECT, &metadata.subject);
    assert(items@.map_values(|p: PropertyItem| item_view(p)) =~= spec_metadata_items(*metadata));
    items
}

/// A title alone is written as one "Details" title item of raw bytes: for
/// text below U+10000, each character's code unit low byte first, then a NUL
/// unit.
pub proof fn law_title_is_written_utf16_little_endian(m: Metadata)
    requires
        m.title is Some,
        m.document_name is None && m.description is None && m.software is None && m.date_time is None
            && m.artist is None && m.host_computer is None && m.copyright is None && m.comment is None
            && m.author is None && m.keywords is None && m.subject is None,
        forall|k: int| #![trigger m.title->0@[k]] 0 <= k < m.title->0@.len() ==> (m.title->0@[k] as u32) < 0x10000,
    ensures
        ({
            let items = spec_metadata_items(m);
            let text = m.title->0@;
            &&& items.len() == 1
            &&& items[0].0 == 0x9C9Bu32 && items[0].1 == 1u16
            &&& items[0].2.len() == 2 * text.len() + 2
            &&& forall|k: int| 0 <= k < text.len() ==> {
                &&& items[0].2[2 * k] == (text[k] as u32 % 256) as u8
                &&& items[0].2[2 * k + 1] == (text[k] as u32 / 256) as u8
            }
            &&& items[0].2[2 * text.len() as int] == 0 && items[0].2[2 * text.len() + 1int] == 0
        }),
{
    law_details_value_is_utf16_little_endian(m.title->0@);
    assert(spec_metadata_items(m) =~= seq![(TAG_XP_TITLE, TYPE_BYTE, xp_value(m.title->0@))]);
}

/// Writing a value to every field sets exactly the tags that stripping
/// removes, in the same order, each carrying that value.
pub proof fn law_full_payload_covers_stripped_tags(m: Metadata)
    requires
        m.document_name is Some && m.description is Some && m.software is Some && m.date_time is Some
            && m.artist is Some && m.host_computer is Some && m.copyright is Some && m.title is Some
            && m.comment is Some && m.author is Some && m.keywords is Some && m.subject is Some,
    ensures
        spec_metadata_items(m).map_values(|e: (u32, u16, Seq<u8>)| e.0) == spec_common_tags(),
{
    assert(spec_metadata_items(m).map_values(|e: (u32, u16, Seq<u8>)| e.0) =~= spec_common_tags());
}

} // verus!
