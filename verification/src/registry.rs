//! The guideline registry: an ordered, immutable catalog of guideline
//! entries, each with a stable identifier, a requirement tier, the lint
//! directive it controls, an enabled flag, and a free-text rationale.

use vstd::prelude::*;

verus! {

/// Enforcement strength of a guideline.
#[derive(Clone, Copy, Debug, PartialEq, Eq, Structural)]
pub enum Tier {
    Required,
    Recommended,
    Optional,
}

/// One row of the catalog.
#[derive(Debug)]
pub struct GuidelineEntry {
    /// Stable identifier, unique across the catalog (e.g. a guideline code).
    pub id: String,
    /// Requirement tier; drives the severity of the emitted directive.
    pub tier: Tier,
    /// The toolchain lint/check name this entry controls.
    pub directive_name: String,
    /// Whether the entry is currently active; disabled entries stay in the
    /// catalog and are rendered as comments.
    pub enabled: bool,
    /// Free-text explanation, carried into the emitted annotation comment.
    pub rationale_note: String,
}

/// Mathematical model of one entry: the same fields over `Seq<char>`.
#[verifier::ext_equal]
pub struct EntryModel {
    pub id: Seq<char>,
    pub tier: Tier,
    pub directive_name: Seq<char>,
    pub enabled: bool,
    pub rationale_note: Seq<char>,
}

impl View for GuidelineEntry {
    type V = EntryModel;

    open spec fn view(&self) -> EntryModel {
        EntryModel {
            id: self.id@,
            tier: self.tier,
            directive_name: self.directive_name@,
            enabled: self.enabled,
            rationale_note: self.rationale_note@,
        }
    }
}

/// The models of a sequence of entries, in order.
pub open spec fn entry_models(s: Seq<GuidelineEntry>) -> Seq<EntryModel> {
    Seq::new(s.len(), |i: int| s[i]@)
}

/// An ordered catalog of guideline entries. Constructed once, never
/// mutated afterwards; construction is total.
#[derive(Debug)]
pub struct Registry {
    entries: Vec<GuidelineEntry>,
}

impl View for Registry {
    type V = Seq<EntryModel>;

    closed spec fn view(&self) -> Seq<EntryModel> {
        entry_models(self.entries@)
    }
}

impl Registry {
    /// Wraps an ordered list of entries as a catalog. Total: no validation
    /// happens here; a dynamically supplied catalog is checked at render
    /// time.
    pub fn new(entries: Vec<GuidelineEntry>) -> (r: Registry)
        ensures
            r@ == entry_models(entries@),
    {
        Registry { entries }
    }

    /// Read-only access to the ordered entries.
    pub fn entries(&self) -> (r: &Vec<GuidelineEntry>)
        ensures
            entry_models(r@) == self@,
    {
        &self.entries
    }

    /// Number of entries in the catalog.
    pub fn len(&self) -> (n: usize)
        ensures
            n == self@.len(),
    {
        self.entries.len()
    }
}

} // verus!
