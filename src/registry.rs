//! Where the document is kept: which registry key is tried first, what is
//! done after each attempt to open one, and which value holds the document.

use vstd::prelude::*;
use crate::text::{has_prefix, views};

verus! {

/// Start of the name of the registry value that holds the document.
pub const GRAPHICS_VALUE_PREFIX: &'static str = "GraphicsSettings_Model";

/// Whether `name` is the name of a value that holds the document.
pub open spec fn is_graphics_value_name(name: Seq<char>) -> bool {
    let p = GRAPHICS_VALUE_PREFIX@;
    p.len() <= name.len() && name.subrange(0, p.len() as int) == p
}

/// Whether `name` is the name of a value that holds the document.
pub fn is_graphics_value(name: &str) -> (r: bool)
    ensures
        r == is_graphics_value_name(name@),
{
    has_prefix(name, GRAPHICS_VALUE_PREFIX)
}

/// Position of the first of `names` that names a value holding the document.
pub fn find_graphics_value(names: &Vec<String>) -> (r: Option<usize>)
    ensures
        match r {
            Some(i) => i < names@.len() && is_graphics_value_name(names@[i as int]@) && forall|j: int|
                0 <= j < i ==> !is_graphics_value_name(#[trigger] names@[j]@),
            None => forall|j: int| 0 <= j < names@.len() ==> !is_graphics_value_name(#[trigger] names@[j]@),
        },
{
    let mut i: usize = 0;
    while i < names.len()
        invariant
            i <= names@.len(),
            forall|j: int| 0 <= j < i ==> !is_graphics_value_name(#[trigger] names@[j]@),
        decreases names@.len() - i,
    {
        if is_graphics_value(names[i].as_str()) {
            return Some(i);
        }
        i = i + 1;
    }
    None
}

/// The two editions of the game, each with its own registry key.
#[derive(Debug, Clone, Copy, PartialEq, Eq, Structural)]
pub enum GameRegion {
    China,
    Global,
}

/// The path, below the current user's hive, of a region's registry key.
pub open spec fn region_path_spec(region: GameRegion) -> Seq<Seq<char>> {
    match region {
        GameRegion::China => seq!["Software"@, "miHoYo"@, "崩坏：星穹铁道"@],
        GameRegion::Global => seq!["Software"@, "Cognosphere"@, "Star Rail"@],
    }
}

/// The path, below the current user's hive, of a region's registry key, one
/// component per item.
pub fn region_path(region: GameRegion) -> (r: Vec<&'static str>)
    ensures
        views(r@) == region_path_spec(region),
{
    let v = match region {
        GameRegion::China => vec!["Software", "miHoYo", "崩坏：星穹铁道"],
        GameRegion::Global => vec!["Software", "Cognosphere", "Star Rail"],
    };
    assert(views(v@) =~= region_path_spec(region));
    v
}

/// The region whose key is tried first.
pub fn first_region() -> (r: GameRegion)
    ensures
        r == GameRegion::China,
{
    GameRegion::China
}

/// How an attempt to open a region's key ended.
#[derive(Debug, Clone, Copy, PartialEq, Eq, Structural)]
pub enum OpenOutcome {
    Opened,
    NotFound,
    PermissionDenied,
    /// Any other failure.
    Failed,
}

/// What the user is told after a failed attempt.
#[derive(Debug, Clone, Copy, PartialEq, Eq, Structural)]
pub enum LookupNotice {
    /// No key for the Chinese edition.
    ChinaMissing,
    /// No key for the global edition.
    GlobalMissing,
    /// Access was refused: run as administrator.
    NeedsAdmin,
}

/// What to do after an attempt.
#[derive(Debug, Clone, Copy, PartialEq, Eq, Structural)]
pub enum LookupNext {
    /// Use the key just opened.
    Use(GameRegion),
    /// Try the key of this region.
    Try(GameRegion),
    /// No key can be used.
    GiveUp,
    /// Stop: the failure is not one the lookup knows how to handle.
    Abort,
}

/// One decision of the key lookup.
#[derive(Debug, Clone, Copy, PartialEq, Eq, Structural)]
pub struct LookupStep {
    pub notice: Option<LookupNotice>,
    pub next: LookupNext,
}

/// Decides what follows an attempt to open `region`'s key that ended with
/// `outcome`: an opened key is used; a missing key or refused access is
/// reported, and the global key is tried after the Chinese one, the lookup
/// giving up after the global one; any other failure aborts.
pub fn lookup_step(region: GameRegion, outcome: OpenOutcome) -> (r: LookupStep)
    ensures
        outcome == OpenOutcome::Opened ==> r.notice is None && r.next == LookupNext::Use(region),
        outcome == OpenOutcome::NotFound ==> r.notice == Some(
            if region == GameRegion::China {
                LookupNotice::ChinaMissing
            } else {
                LookupNotice::GlobalMissing
            },
        ),
        outcome == OpenOutcome::PermissionDenied ==> r.notice == Some(LookupNotice::NeedsAdmin),
        outcome == OpenOutcome::NotFound || outcome == OpenOutcome::PermissionDenied ==> r.next == (
        if region == GameRegion::China {
            LookupNext::Try(GameRegion::Global)
        } else {
            LookupNext::GiveUp
        }),
        outcome == OpenOutcome::Failed ==> r.notice is None && r.next == LookupNext::Abort,
{
    let after_failure = match region {
        GameRegion::China => LookupNext::Try(GameRegion::Global),
        GameRegion::Global => LookupNext::GiveUp,
    };
    match outcome {
        OpenOutcome::Opened => LookupStep { notice: None, next: LookupNext::Use(region) },
        OpenOutcome::NotFound => {
            let notice = match region {
                GameRegion::China => LookupNotice::ChinaMissing,
                GameRegion::Global => LookupNotice::GlobalMissing,
            };
            LookupStep { notice: Some(notice), next: after_failure }
        },
        OpenOutcome::PermissionDenied => LookupStep {
            notice: Some(LookupNotice::NeedsAdmin),
            next: after_failure,
        },
        OpenOutcome::Failed => LookupStep { notice: None, next: LookupNext::Abort },
    }
}

} // verus!
