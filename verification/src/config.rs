//! The persisted application settings and the choices derived from them.

use vstd::prelude::*;
use crate::names::{generated_name, random_string, spec_random_string, law_random_string_charset};

verus! {

/// Replacement values for image data families.
#[derive(Clone, Debug)]
pub struct CustomDataConfig {
    pub exif: String,
    pub metadata: String,
}

impl Default for CustomDataConfig {
    /// Empty replacement values.
    fn default() -> (c: Self)
        ensures
            c.exif@ == Seq::<char>::empty(),
            c.metadata@ == Seq::<char>::empty(),
    {
        CustomDataConfig { exif: String::new(), metadata: String::new() }
    }
}

/// Persisted application settings.
#[derive(Clone, Debug)]
pub struct Config {
    pub save_directory: String,
    pub image_format: String,
    /// Auto-save the cleaned capture to the save directory.
    pub auto_save: bool,
    /// Copy the cleaned capture to the clipboard after it is grabbed.
    pub copy_to_clipboard: bool,
    /// Draw the free-roam region selection as a circle instead of a rectangle.
    pub circular_selection: bool,
    /// Show and capture the same frozen virtual-desktop frame during selection.
    pub freeze_screen_on_capture: bool,
    /// Prevent the application's own window from appearing in screenshots.
    pub ignore_self: bool,
    /// Replace stripped image data with user-configured values after cleaning.
    pub fill_custom_data: bool,
    /// Keep a shortcut in the Start Menu.
    pub start_menu_shortcut: bool,
    /// User-configured replacement values for image data families.
    pub custom_data: CustomDataConfig,
}

/// The default of settings that are on unless a saved configuration turns
/// them off (`auto_save`, `freeze_screen_on_capture`, `start_menu_shortcut`).
pub fn default_true() -> (r: bool)
    ensures
        r,
{
    true
}

/// The replacement values for the custom data entries, taken from the first
/// two of the distinct generated names in `values`.
pub fn generate_custom_data(values: &Vec<String>) -> (c: CustomDataConfig)
    requires
        values@.len() >= 2,
        values@[0]@ != values@[1]@,
        generated_name(values@[0]@),
        generated_name(values@[1]@),
    ensures
        c.exif@ == values@[0]@,
        c.metadata@ == values@[1]@,
        c.exif@ != c.metadata@,
        generated_name(c.exif@),
        generated_name(c.metadata@),
{
    CustomDataConfig { exif: values[0].clone(), metadata: values[1].clone() }
}

/// Every string of `values` has the shape of a generated name.
pub open spec fn all_generated(values: Seq<String>) -> bool {
    forall|i: int| 0 <= i < values.len() ==> generated_name(#[trigger] values[i]@)
}

/// No two strings of `values` are equal.
pub open spec fn all_distinct(values: Seq<String>) -> bool {
    forall|i: int, j: int| 0 <= i < j < values.len() ==> values[i]@ != values[j]@
}

/// Whether some string of `values` equals `s`.
pub open spec fn contains_text(values: Seq<String>, s: Seq<char>) -> bool {
    exists|i: int| 0 <= i < values.len() && values[i]@ == s
}

/// Adds `candidate` to `values` unless an equal string is already there, as
/// the generator of unique random strings does with each fresh string.
/// Returns whether it was added.
pub fn push_unique(values: &mut Vec<String>, candidate: String) -> (added: bool)
    ensures
        added == !contains_text(old(values)@, candidate@),
        added ==> final(values)@ == old(values)@.push(candidate),
        !added ==> final(values)@ == old(values)@,
        all_distinct(old(values)@) ==> all_distinct(final(values)@),
{
    let mut i: usize = 0;
    while i < values.len()
        invariant
            i <= values@.len(),
            forall|k: int| 0 <= k < i ==> values@[k]@ != candidate@,
        decreases values@.len() - i,
    {
        if values[i] == candidate {
            return false;
        }
        i = i + 1;
    }
    values.push(candidate);
    true
}

/// Draws a name from fifteen random bytes and adds it to `values` unless an
/// equal string is already there, as the generator of unique replacement
/// values does until it has enough. Returns whether it was added.
pub fn draw_unique_name(values: &mut Vec<String>, random: &[u8]) -> (added: bool)
    requires
        random@.len() >= 15,
    ensures
        added == !contains_text(old(values)@, spec_random_string(random@)),
        added ==> final(values)@.len() == old(values)@.len() + 1
            && final(values)@.subrange(0, old(values)@.len() as int) == old(values)@
            && final(values)@.last()@ == spec_random_string(random@),
        !added ==> final(values)@ == old(values)@,
        all_distinct(old(values)@) ==> all_distinct(final(values)@),
        all_generated(old(values)@) ==> all_generated(final(values)@),
{
    let name = random_string(random);
    proof {
        law_random_string_charset(random@);
    }
    let ghost before = values@;
    let added = push_unique(values, name);
    proof {
        if added {
            assert(values@.subrange(0, before.len() as int) =~= before);
            assert(forall|i: int| 0 <= i < before.len() ==> values@[i] == before[i]);
        }
    }
    added
}

/// The content-protection setting to apply to the main window: the saved
/// `ignore_self`, off when no configuration has been saved.
pub fn apply_saved_ignore_self(config: Option<&Config>) -> (r: bool)
    ensures
        r == match config {
            Some(c) => c.ignore_self,
            None => false,
        },
{
    match config {
        Some(c) => c.ignore_self,
        None => false,
    }
}

} // verus!
