//! Start Menu shortcut decisions. The shortcut's SHA-256 hash is recorded at
//! creation and checked before removal, so a foreign file that happens to
//! share the shortcut's name is never deleted.

use vstd::prelude::*;
use crate::config::Config;
use crate::text::{trim, spec_trim};

verus! {

/// What is known of the shortcut on disk.
#[derive(Clone, Copy, Debug, PartialEq, Eq, Structural)]
pub struct ShortcutState {
    /// The Start Menu folder could be located.
    pub location_known: bool,
    /// A file exists at the shortcut's path.
    pub shortcut_exists: bool,
    /// Whether the hash file exists, or `None` when its path is unknown.
    pub hash_recorded: Option<bool>,
}

/// The step that brings the shortcut in line with the setting.
#[derive(Clone, Copy, Debug, PartialEq, Eq, Structural)]
pub enum ShortcutAction {
    /// Leave everything as it is.
    Nothing,
    /// Record the hash of the existing shortcut.
    RecordHash,
    /// Write the shortcut to the running executable, then record its hash.
    Create,
    /// Delete the stale hash file of a shortcut that no longer exists.
    ClearHash,
    /// Compare the stored hash with the shortcut's and delete both when they match.
    VerifyAndRemove,
}

/// Whether the hash of an existing shortcut still has to be recorded: only
/// when the hash file's path is known and no file is there.
pub fn ensure_hash_recorded(hash_recorded: Option<bool>) -> (record: bool)
    ensures
        record == (hash_recorded == Some(false)),
{
    match hash_recorded {
        Some(exists) => !exists,
        None => false,
    }
}

/// The step for the Start Menu setting `enabled`: ensure the shortcut exists
/// (backfilling its hash) when enabled, remove it after hash verification when
/// disabled.
pub open spec fn spec_apply(enabled: bool, state: ShortcutState) -> ShortcutAction {
    if !state.location_known {
        ShortcutAction::Nothing
    } else if enabled {
        if state.shortcut_exists {
            if state.hash_recorded == Some(false) { ShortcutAction::RecordHash } else { ShortcutAction::Nothing }
        } else {
            ShortcutAction::Create
        }
    } else if state.shortcut_exists {
        ShortcutAction::VerifyAndRemove
    } else {
        ShortcutAction::ClearHash
    }
}

/// Applies the Start Menu setting to what is on disk.
pub fn apply(enabled: bool, state: ShortcutState) -> (action: ShortcutAction)
    ensures
        action == spec_apply(enabled, state),
        enabled ==> action != ShortcutAction::VerifyAndRemove && action != ShortcutAction::ClearHash,
        !enabled ==> action != ShortcutAction::Create && action != ShortcutAction::RecordHash,
{
    if !state.location_known {
        ShortcutAction::Nothing
    } else if enabled {
        if state.shortcut_exists {
            if ensure_hash_recorded(state.hash_recorded) {
                ShortcutAction::RecordHash
            } else {
                ShortcutAction::Nothing
            }
        } else {
            ShortcutAction::Create
        }
    } else if state.shortcut_exists {
        ShortcutAction::VerifyAndRemove
    } else {
        ShortcutAction::ClearHash
    }
}

/// Applies the saved Start Menu setting, enabled when no configuration has
/// been written yet.
pub fn apply_saved(config: Option<&Config>, state: ShortcutState) -> (action: ShortcutAction)
    ensures
        action == spec_apply(
            match config {
                Some(c) => c.start_menu_shortcut,
                None => true,
            },
            state,
        ),
{
    let enabled = match config {
        Some(c) => c.start_menu_shortcut,
        None => true,
    };
    apply(enabled, state)
}

/// The hash file's state once a hash is written (`true`) or deleted (`false`),
/// where its path is known.
pub open spec fn hash_set(hash_recorded: Option<bool>, present: bool) -> Option<bool> {
    match hash_recorded {
        Some(_) => Some(present),
        None => None,
    }
}

/// What is on disk after `action` is carried out on `state` and every step
/// succeeds. `hash_matches` is whether the stored hash confirms the shortcut
/// (`removal_confirmed` on the stored and the actual hash).
pub open spec fn spec_after(action: ShortcutAction, state: ShortcutState, hash_matches: bool) -> ShortcutState {
    match action {
        ShortcutAction::Nothing => state,
        ShortcutAction::RecordHash => ShortcutState { hash_recorded: hash_set(state.hash_recorded, true), ..state },
        ShortcutAction::Create => ShortcutState {
            shortcut_exists: true,
            hash_recorded: hash_set(state.hash_recorded, true),
            ..state
        },
        ShortcutAction::ClearHash => ShortcutState { hash_recorded: hash_set(state.hash_recorded, false), ..state },
        ShortcutAction::VerifyAndRemove => if hash_matches {
            ShortcutState { shortcut_exists: false, hash_recorded: hash_set(state.hash_recorded, false), ..state }
        } else {
            state
        },
    }
}

fn hash_state(hash_recorded: Option<bool>, present: bool) -> (r: Option<bool>)
    ensures
        r == hash_set(hash_recorded, present),
{
    match hash_recorded {
        Some(_) => Some(present),
        None => None,
    }
}

/// What should be on disk once `action` has been carried out on `state` with
/// every step succeeding; `hash_matches` is the verdict of `removal_confirmed`.
pub fn state_after(action: ShortcutAction, state: ShortcutState, hash_matches: bool) -> (r: ShortcutState)
    ensures
        r == spec_after(action, state, hash_matches),
{
    match action {
        ShortcutAction::Nothing => state,
        ShortcutAction::RecordHash => ShortcutState { hash_recorded: hash_state(state.hash_recorded, true), ..state },
        ShortcutAction::Create => ShortcutState {
            shortcut_exists: true,
            hash_recorded: hash_state(state.hash_recorded, true),
            ..state
        },
        ShortcutAction::ClearHash => ShortcutState { hash_recorded: hash_state(state.hash_recorded, false), ..state },
        ShortcutAction::VerifyAndRemove => if hash_matches {
            ShortcutState { shortcut_exists: false, hash_recorded: hash_state(state.hash_recorded, false), ..state }
        } else {
            state
        },
    }
}

/// Disabling undoes enabling: from a Start Menu without the shortcut or its
/// hash, enabling and then disabling (the recorded hash still matching the
/// untouched shortcut) leaves neither file.
pub proof fn law_disable_undoes_enable(s: ShortcutState)
    requires
        s.location_known,
        !s.shortcut_exists,
        s.hash_recorded == Some(false),
    ensures
        ({
            let enabled = spec_after(spec_apply(true, s), s, true);
            let disabled = spec_after(spec_apply(false, enabled), enabled, true);
            &&& enabled.shortcut_exists && enabled.hash_recorded == Some(true)
            &&& disabled == s
        }),
{
}

/// Applying the same setting twice has the effect of applying it once, as
/// long as nothing else touches the shortcut or its hash in between.
pub proof fn law_apply_is_idempotent(enabled: bool, s: ShortcutState, hash_matches: bool)
    ensures
        ({
            let once = spec_after(spec_apply(enabled, s), s, hash_matches);
            spec_after(spec_apply(enabled, once), once, hash_matches) == once
        }),
{
}

/// Whether `a` and `b` hold the same characters.
pub fn same_text(a: &str, b: &str) -> (r: bool)
    ensures
        r == (a@ == b@),
{
    let n = a.unicode_len();
    if n != b.unicode_len() {
        return false;
    }
    let mut i: usize = 0;
    while i < n
        invariant
            i <= n,
            n == a@.len(),
            n == b@.len(),
            forall|k: int| 0 <= k < i ==> a@[k] == b@[k],
        decreases n - i,
    {
        if a.get_char(i) != b.get_char(i) {
            return false;
        }
        i = i + 1;
    }
    assert(a@ =~= b@);
    true
}

/// Whether the shortcut may be deleted: both hashes are known and the stored
/// one, without surrounding white space, equals the shortcut's.
pub fn removal_confirmed(stored: Option<&str>, actual: Option<&str>) -> (remove: bool)
    ensures
        remove == (stored is Some && actual is Some && spec_trim(stored->0@) == actual->0@),
{
    match (stored, actual) {
        (Some(s), Some(a)) => same_text(trim(s), a),
        _ => false,
    }
}

} // verus!
