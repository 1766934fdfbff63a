//! The version record of a contract and the rules of a migration.
//!
//! The record lives in a single storage slot under a fixed key. The functions
//! here take that slot as a value (`None` before the first write); loading it
//! from and saving it to the host's storage is left to the caller.

use crate::version::{precedence, semver_parse, Version, VersionView};
use std::cmp::Ordering;
use vstd::prelude::*;
use vstd::string::StringExecFns;

verus! {

/// The record that a contract keeps of what it is and which version of it
/// wrote the storage.
#[derive(Clone, Debug, PartialEq, Eq)]
pub struct ContractVersion {
    /// The crate name of the implementing contract, e.g. `crate:cw20-base`.
    pub contract: String,
    /// Any version text this implementation knows; only migration code
    /// parses it, as a semantic version.
    pub version: String,
}

impl View for ContractVersion {
    type V = (Seq<char>, Seq<char>);

    open spec fn view(&self) -> (Seq<char>, Seq<char>) {
        (self.contract@, self.version@)
    }
}

/// What the storage slot holds: the record's name and version, if any.
pub open spec fn slot_view(slot: Option<ContractVersion>) -> Option<(Seq<char>, Seq<char>)> {
    match slot {
        Some(c) => Some(c@),
        None => None,
    }
}

/// Why reading or advancing the version record failed.
#[derive(Clone, Debug)]
pub enum VersionError {
    /// No record has been written.
    NotFound,
    /// `input` is not a semantic version; `reason` is the parser's diagnostic.
    InvalidVersion { input: String, reason: String },
    /// The record belongs to `stored`, the migrating code to `expected`.
    NameMismatch { stored: String, expected: String },
    /// The stored version is newer than the requested one.
    DowngradeRejected { stored: String, requested: String },
}

/// A `VersionError` with its texts as sequences of characters.
pub enum ErrorView {
    NotFound,
    InvalidVersion { input: Seq<char>, reason: Seq<char> },
    NameMismatch { stored: Seq<char>, expected: Seq<char> },
    DowngradeRejected { stored: Seq<char>, requested: Seq<char> },
}

impl View for VersionError {
    type V = ErrorView;

    open spec fn view(&self) -> ErrorView {
        match self {
            VersionError::NotFound => ErrorView::NotFound,
            VersionError::InvalidVersion { input, reason } => ErrorView::InvalidVersion {
                input: input@,
                reason: reason@,
            },
            VersionError::NameMismatch { stored, expected } => ErrorView::NameMismatch {
                stored: stored@,
                expected: expected@,
            },
            VersionError::DowngradeRejected { stored, requested } => ErrorView::DowngradeRejected {
                stored: stored@,
                requested: requested@,
            },
        }
    }
}

/// The message that describes an error.
pub open spec fn error_message(e: ErrorView) -> Seq<char> {
    match e {
        ErrorView::NotFound => "contract version not found"@,
        ErrorView::InvalidVersion { input, reason } => "Invalid version "@ + input + ": "@
            + reason,
        ErrorView::NameMismatch { stored, expected } => "Cannot migrate from "@ + stored + " to "@
            + expected,
        ErrorView::DowngradeRejected { stored, requested } => "Cannot migrate from newer version ("@
            + stored + ") to older ("@ + requested + ")"@,
    }
}

/// The diagnostic given when the pre-release tags of two versions cannot be
/// ordered.
pub open spec fn unordered_reason() -> Seq<char> {
    "pre-release tags cannot be ordered"@
}

/// The decision on a migration once both versions are parsed: whether the
/// record advances to `new` (`true`) or stays (`false`), or why the
/// migration fails. `contract` and `text` are the stored record, `stored` its
/// parsed version; `name` and `new` are the request, `requested` its parsed
/// version.
pub open spec fn migration_decision(
    contract: Seq<char>,
    text: Seq<char>,
    stored: VersionView,
    name: Seq<char>,
    new: Seq<char>,
    requested: VersionView,
) -> Result<bool, ErrorView> {
    if contract != name {
        Err(ErrorView::NameMismatch { stored: contract, expected: name })
    } else {
        match precedence(stored, requested) {
            None => Err(ErrorView::InvalidVersion { input: new, reason: unordered_reason() }),
            Some(Ordering::Greater) => Err(
                ErrorView::DowngradeRejected { stored: text, requested: new },
            ),
            Some(Ordering::Less) => Ok(true),
            Some(Ordering::Equal) => Ok(false),
        }
    }
}

/// What a migration to `new` by the contract `name` returns, given what the
/// slot holds: the stored version as it was, or why the migration fails.
pub open spec fn migration_result(
    slot: Option<(Seq<char>, Seq<char>)>,
    name: Seq<char>,
    new: Seq<char>,
) -> Result<VersionView, ErrorView> {
    match semver_parse(new) {
        Err(reason) => Err(ErrorView::InvalidVersion { input: new, reason }),
        Ok(requested) => match slot {
            None => Err(ErrorView::NotFound),
            Some((contract, text)) => match semver_parse(text) {
                Err(reason) => Err(ErrorView::InvalidVersion { input: text, reason }),
                Ok(stored) => match migration_decision(contract, text, stored, name, new, requested) {
                    Ok(_) => Ok(stored),
                    Err(e) => Err(e),
                },
            },
        },
    }
}

/// What the slot holds after a migration to `new` by the contract `name`:
/// the new record where the migration advances, else the slot as it was.
pub open spec fn migrated_slot(
    slot: Option<(Seq<char>, Seq<char>)>,
    name: Seq<char>,
    new: Seq<char>,
) -> Option<(Seq<char>, Seq<char>)> {
    match (slot, semver_parse(new)) {
        (Some((contract, text)), Ok(requested)) => match semver_parse(text) {
            Ok(stored) => if migration_decision(contract, text, stored, name, new, requested)
                == Ok::<bool, ErrorView>(true) {
                Some((name, new))
            } else {
                slot
            },
            Err(_) => slot,
        },
        _ => slot,
    }
}

/// The outcome of a migration, with its texts as sequences of characters.
pub open spec fn result_view(r: Result<Version, VersionError>) -> Result<VersionView, ErrorView> {
    match r {
        Ok(v) => Ok(v@),
        Err(e) => Err(e@),
    }
}

impl VersionError {
    /// The message that describes the error.
    pub fn to_string(&self) -> (r: String)
        ensures
            r@ == error_message(self@),
    {
        match self {
            VersionError::NotFound => String::from_str("contract version not found"),
            VersionError::InvalidVersion { input, reason } => {
                let mut s = String::from_str("Invalid version ");
                s.append(input.as_str());
                s.append(": ");
                s.append(reason.as_str());
                s
            },
            VersionError::NameMismatch { stored, expected } => {
                let mut s = String::from_str("Cannot migrate from ");
                s.append(stored.as_str());
                s.append(" to ");
                s.append(expected.as_str());
                s
            },
            VersionError::DowngradeRejected { stored, requested } => {
                let mut s = String::from_str("Cannot migrate from newer version (");
                s.append(stored.as_str());
                s.append(") to older (");
                s.append(requested.as_str());
                s.append(")");
                s
            },
        }
    }
}

/// Reads the version record from its slot; to be used when migrating, to learn
/// the version that wrote the storage.
pub fn get_contract_version(store: &Option<ContractVersion>) -> (r: Result<
    ContractVersion,
    VersionError,
>)
    ensures
        match slot_view(*store) {
            Some(c) => r matches Ok(v) && v@ == c,
            None => r matches Err(VersionError::NotFound),
        },
{
    match store {
        Some(c) => Ok(ContractVersion { contract: c.contract.clone(), version: c.version.clone() }),
        None => Err(VersionError::NotFound),
    }
}

/// Writes the version record, replacing whatever the slot held: at
/// instantiation, and after a migration has been accepted.
pub fn set_contract_version(store: &mut Option<ContractVersion>, name: &str, version: &str)
    ensures
        slot_view(*final(store)) == Some((name@, version@)),
{
    *store = Some(ContractVersion { contract: String::from_str(name), version: String::from_str(version) });
}

/// Decides a migration once both versions are parsed: `Ok(true)` where the
/// record is to advance to `new_version`, `Ok(false)` where it already holds
/// a version of equal precedence, or why the migration is refused.
pub fn decide_migration(
    stored: &ContractVersion,
    stored_version: &Version,
    name: &str,
    new_version: &str,
    requested: &Version,
) -> (r: Result<bool, VersionError>)
    ensures
        match r {
            Ok(b) => migration_decision(stored.contract@, stored.version@, stored_version@, name@, new_version@, requested@) == Ok::<bool, ErrorView>(b),
            Err(e) => migration_decision(stored.contract@, stored.version@, stored_version@, name@, new_version@, requested@) == Err::<bool, ErrorView>(e@),
        },
{
    let expected = String::from_str(name);
    if !(expected == stored.contract) {
        return Err(VersionError::NameMismatch { stored: stored.contract.clone(), expected });
    }
    match stored_version.cmp_precedence(requested) {
        None => Err(
            VersionError::InvalidVersion {
                input: String::from_str(new_version),
                reason: String::from_str("pre-release tags cannot be ordered"),
            },
        ),
        Some(Ordering::Greater) => Err(
            VersionError::DowngradeRejected {
                stored: stored.version.clone(),
                requested: String::from_str(new_version),
            },
        ),
        Some(Ordering::Less) => Ok(true),
        Some(Ordering::Equal) => Ok(false),
    }
}

/// Checks that the contract `name` may migrate its storage to `new_version`,
/// and advances the record when the new version is strictly newer. Returns the
/// version that was stored before.
pub fn ensure_from_older_version(
    store: &mut Option<ContractVersion>,
    name: &str,
    new_version: &str,
) -> (r: Result<Version, VersionError>)
    ensures
        result_view(r) == migration_result(slot_view(*old(store)), name@, new_version@),
        slot_view(*final(store)) == migrated_slot(slot_view(*old(store)), name@, new_version@),
{
    let version = match Version::parse(new_version) {
        Ok(v) => v,
        Err(reason) => {
            return Err(VersionError::InvalidVersion { input: String::from_str(new_version), reason });
        },
    };
    let stored = match get_contract_version(store) {
        Ok(c) => c,
        Err(e) => {
            return Err(e);
        },
    };
    let storage_version = match Version::parse(stored.version.as_str()) {
        Ok(v) => v,
        Err(reason) => {
            return Err(VersionError::InvalidVersion { input: stored.version, reason });
        },
    };
    match decide_migration(&stored, &storage_version, name, new_version, &version) {
        Ok(advance) => {
            if advance {
                set_contract_version(store, name, new_version);
            }
            Ok(storage_version)
        },
        Err(e) => Err(e),
    }
}

/// `part` occurs in `text` as a contiguous run of characters.
pub open spec fn mentions(text: Seq<char>, part: Seq<char>) -> bool {
    exists|i: int|
        0 <= i && i + part.len() <= text.len() && #[trigger] text.subrange(i, i + part.len())
            == part
}

proof fn lemma_mentions_at(text: Seq<char>, part: Seq<char>, before: Seq<char>, after: Seq<char>)
    requires
        text == before + part + after,
    ensures
        mentions(text, part),
{
    let i = before.len() as int;
    assert(text.subrange(i, i + part.len()) =~= part);
}

/// Under the same name, a migration from a stored version to one of higher
/// precedence, or to the same text, succeeds, returns the stored version, and
/// leaves the requested text stored.
pub proof fn lemma_advance_from_older(n: Seq<char>, v1: Seq<char>, v2: Seq<char>)
    requires
        semver_parse(v1) is Ok,
        semver_parse(v2) is Ok,
        precedence(semver_parse(v1)->Ok_0, semver_parse(v2)->Ok_0) == Some(Ordering::Less) || v1
            == v2,
    ensures
        migration_result(Some((n, v1)), n, v2) == Ok::<VersionView, ErrorView>(
            semver_parse(v1)->Ok_0,
        ),
        migrated_slot(Some((n, v1)), n, v2) == Some((n, v2)),
{
}

/// A migration to the version already stored succeeds, returns that version,
/// and leaves the record untouched.
pub proof fn lemma_same_version_is_noop(n: Seq<char>, v: Seq<char>)
    requires
        semver_parse(v) is Ok,
    ensures
        migration_result(Some((n, v)), n, v) == Ok::<VersionView, ErrorView>(semver_parse(v)->Ok_0),
        migrated_slot(Some((n, v)), n, v) == Some((n, v)),
{
}

/// A migration to a version of lower precedence than the stored one fails
/// with a downgrade error whose message names both versions, and leaves the
/// record untouched.
pub proof fn lemma_downgrade_rejected(n: Seq<char>, v1: Seq<char>, v2: Seq<char>)
    requires
        semver_parse(v1) is Ok,
        semver_parse(v2) is Ok,
        precedence(semver_parse(v1)->Ok_0, semver_parse(v2)->Ok_0) == Some(Ordering::Greater),
    ensures
        migration_result(Some((n, v1)), n, v2) == Err::<VersionView, ErrorView>(
            (ErrorView::DowngradeRejected { stored: v1, requested: v2 }),
        ),
        mentions(error_message((ErrorView::DowngradeRejected { stored: v1, requested: v2 })), v1),
        mentions(error_message((ErrorView::DowngradeRejected { stored: v1, requested: v2 })), v2),
        migrated_slot(Some((n, v1)), n, v2) == Some((n, v1)),
{
    let m = error_message(ErrorView::DowngradeRejected { stored: v1, requested: v2 });
    let head = "Cannot migrate from newer version ("@;
    let mid = ") to older ("@;
    let tail = ")"@;
    assert(m =~= head + v1 + (mid + v2 + tail));
    lemma_mentions_at(m, v1, head, mid + v2 + tail);
    assert(m =~= (head + v1 + mid) + v2 + tail);
    lemma_mentions_at(m, v2, head + v1 + mid, tail);
}

/// A requested version that does not parse fails the migration, whatever the
/// slot holds, with the parser's diagnostic in the message, and leaves the
/// slot untouched.
pub proof fn lemma_invalid_version_rejected(
    slot: Option<(Seq<char>, Seq<char>)>,
    n: Seq<char>,
    v: Seq<char>,
)
    requires
        semver_parse(v) is Err,
    ensures
        migration_result(slot, n, v) == Err::<VersionView, ErrorView>(
            (ErrorView::InvalidVersion { input: v, reason: semver_parse(v)->Err_0 }),
        ),
        mentions(
            error_message((ErrorView::InvalidVersion { input: v, reason: semver_parse(v)->Err_0 })),
            semver_parse(v)->Err_0,
        ),
        migrated_slot(slot, n, v) == slot,
{
    let d = semver_parse(v)->Err_0;
    let m = error_message(ErrorView::InvalidVersion { input: v, reason: d });
    lemma_mentions_at(m, d, "Invalid version "@ + v + ": "@, Seq::empty());
}

} // verus!
