//! The directive emitter: renders a registry into a block of
//! lint-configuration directives, one annotated fragment per entry, in
//! catalog order.
//!
//! Each entry yields an annotation comment (tier, identifier, rationale)
//! followed by the directive itself. The tier fixes the directive's
//! severity: REQUIRED entries emit a build-breaking `deny` directive,
//! RECOMMENDED entries a non-breaking `warn` directive, and OPTIONAL
//! entries are rendered commented out, visible but inert. A disabled
//! entry of any tier is likewise rendered commented out rather than
//! omitted, so the catalog's full intent stays visible.

use crate::registry::{entry_models, EntryModel, GuidelineEntry, Registry, Tier};
use vstd::prelude::*;
use vstd::string::StringExecFns;

verus! {

/// Severity a rendered fragment carries in the output.
#[derive(Clone, Copy, Debug, PartialEq, Eq, Structural)]
pub enum Severity {
    /// Build-breaking directive (`deny`).
    HardFail,
    /// Non-breaking directive surfaced to the developer (`warn`).
    SoftWarn,
    /// Rendered as a comment; present for discoverability, inert.
    Inert,
}

/// Why rendering a dynamically supplied catalog was refused. Any error
/// aborts the whole render: no partial block is ever produced.
#[derive(Clone, Copy, Debug, PartialEq, Eq, Structural)]
pub enum RenderError {
    /// An entry has an empty `id` or an empty `directive_name`.
    MalformedGuideline,
    /// Two entries share an `id`.
    DuplicateGuideline,
}

/// Total map from tier and enabled flag to the severity of the emitted
/// fragment.
pub open spec fn severity_of(tier: Tier, enabled: bool) -> Severity {
    if !enabled {
        Severity::Inert
    } else {
        match tier {
            Tier::Required => Severity::HardFail,
            Tier::Recommended => Severity::SoftWarn,
            Tier::Optional => Severity::Inert,
        }
    }
}

/// An entry is rendered as an active (uncommented) directive exactly when
/// its severity is not `Inert`.
pub open spec fn is_active(e: EntryModel) -> bool {
    severity_of(e.tier, e.enabled) != Severity::Inert
}

/// The tier's name as it appears in the annotation comment.
pub open spec fn tier_label(t: Tier) -> Seq<char> {
    match t {
        Tier::Required => "REQUIRED"@,
        Tier::Recommended => "RECOMMENDED"@,
        Tier::Optional => "OPTIONAL"@,
    }
}

/// The directive keyword the tier maps to: REQUIRED is build-breaking,
/// the other tiers are not. (An inert fragment still shows this keyword,
/// inside a comment.)
pub open spec fn severity_keyword(t: Tier) -> Seq<char> {
    match t {
        Tier::Required => "deny"@,
        Tier::Recommended => "warn"@,
        Tier::Optional => "warn"@,
    }
}

/// The annotation comment preceding an entry's directive: tier label,
/// identifier, and the rationale when one is present.
pub open spec fn annotation_text(e: EntryModel) -> Seq<char> {
    "// ["@ + tier_label(e.tier) + "] "@ + e.id + (if e.rationale_note.len() > 0 {
        " "@ + e.rationale_note
    } else {
        Seq::<char>::empty()
    }) + "\n"@
}

/// The directive itself, in active form.
pub open spec fn directive_core(e: EntryModel) -> Seq<char> {
    "#!["@ + severity_keyword(e.tier) + "("@ + e.directive_name + ")]\n"@
}

/// The directive as emitted: active, or commented out when inert.
pub open spec fn directive_text(e: EntryModel) -> Seq<char> {
    if is_active(e) {
        directive_core(e)
    } else {
        "// "@ + directive_core(e)
    }
}

/// Everything one entry contributes to the output.
pub open spec fn entry_text(e: EntryModel) -> Seq<char> {
    annotation_text(e) + directive_text(e)
}

/// The whole rendered block: each entry's fragment, in catalog order.
pub open spec fn render_text(s: Seq<EntryModel>) -> Seq<char>
    decreases s.len(),
{
    if s.len() == 0 {
        Seq::empty()
    } else {
        render_text(s.drop_last()) + entry_text(s.last())
    }
}

/// A single entry is well-formed: neither its identifier nor the
/// directive name it controls is empty.
pub open spec fn entry_wf(e: EntryModel) -> bool {
    e.id.len() > 0 && e.directive_name.len() > 0
}

/// Every entry of the catalog is well-formed.
pub open spec fn all_entries_wf(s: Seq<EntryModel>) -> bool {
    forall|i: int| 0 <= i < s.len() ==> entry_wf(#[trigger] s[i])
}

/// No two entries share an identifier.
pub open spec fn ids_unique(s: Seq<EntryModel>) -> bool {
    forall|i: int, j: int| 0 <= i < j < s.len() ==> s[i].id != s[j].id
}

/// A catalog is well-formed when its entries are and its identifiers are
/// unique.
pub open spec fn registry_wf(s: Seq<EntryModel>) -> bool {
    all_entries_wf(s) && ids_unique(s)
}

/// The rendered, ready-to-splice output of the emitter.
#[derive(Debug)]
pub struct DirectiveBlock {
    text: String,
}

impl View for DirectiveBlock {
    type V = Seq<char>;

    closed spec fn view(&self) -> Seq<char> {
        self.text@
    }
}

impl DirectiveBlock {
    /// The block's text, to splice verbatim at the root of the governed
    /// compilation unit.
    pub fn as_str(&self) -> (r: &str)
        ensures
            r@ == self@,
    {
        self.text.as_str()
    }

    /// The block's text as an owned string.
    pub fn into_string(self) -> (r: String)
        ensures
            r@ == self@,
    {
        self.text
    }
}

/// The tier's label for annotation comments.
fn tier_label_str(t: Tier) -> (r: &'static str)
    ensures
        r@ == tier_label(t),
{
    match t {
        Tier::Required => "REQUIRED",
        Tier::Recommended => "RECOMMENDED",
        Tier::Optional => "OPTIONAL",
    }
}

/// The directive keyword the tier maps to.
fn severity_keyword_str(t: Tier) -> (r: &'static str)
    ensures
        r@ == severity_keyword(t),
{
    match t {
        Tier::Required => "deny",
        Tier::Recommended => "warn",
        Tier::Optional => "warn",
    }
}

/// Renders each entry in order, without validating: the fixed catalog is
/// statically well-formed.
#[verifier::rlimit(30)]
fn render_entries(entries: &Vec<GuidelineEntry>) -> (out: String)
    ensures
        out@ == render_text(entry_models(entries@)),
{
    let ghost models = entry_models(entries@);
    let mut out = String::new();
    let mut i: usize = 0;
    while i < entries.len()
        invariant
            i <= entries@.len(),
            models == entry_models(entries@),
            out@ == render_text(models.take(i as int)),
        decreases entries@.len() - i,
    {
        let e = &entries[i];
        let ghost prev = out@;
        proof {
            assert(e@ == models[i as int]);
        }
        out.append("// [");
        out.append(tier_label_str(e.tier));
        out.append("] ");
        out.append(e.id.as_str());
        if !e.rationale_note.as_str().is_empty() {
            out.append(" ");
            out.append(e.rationale_note.as_str());
        }
        out.append("\n");
        proof {
            assert(out@ =~= prev + annotation_text(e@));
        }
        let ghost after_note = out@;
        let active = e.enabled && !(e.tier == Tier::Optional);
        proof {
            assert(active == is_active(e@));
        }
        if !active {
            out.append("// ");
        }
        out.append("#![");
        out.append(severity_keyword_str(e.tier));
        out.append("(");
        out.append(e.directive_name.as_str());
        out.append(")]\n");
        proof {
            let m = models[i as int];
            assert(out@ =~= after_note + directive_text(m));
            assert(models.take(i as int + 1).drop_last() =~= models.take(i as int));
            assert(models.take(i as int + 1).last() == m);
            assert(out@ =~= render_text(models.take(i as int)) + entry_text(m));
        }
        i = i + 1;
    }
    proof {
        assert(models.take(entries@.len() as int) =~= models);
    }
    out
}

/// True when some entry has an empty `id` or `directive_name`.
fn has_malformed_entry(entries: &Vec<GuidelineEntry>) -> (found: bool)
    ensures
        found == !all_entries_wf(entry_models(entries@)),
{
    let ghost models = entry_models(entries@);
    let mut i: usize = 0;
    while i < entries.len()
        invariant
            i <= entries@.len(),
            models == entry_models(entries@),
            forall|k: int| 0 <= k < i ==> entry_wf(#[trigger] models[k]),
        decreases entries@.len() - i,
    {
        let e = &entries[i];
        if e.id.as_str().is_empty() || e.directive_name.as_str().is_empty() {
            proof {
                assert(!entry_wf(models[i as int]));
            }
            return true;
        }
        i = i + 1;
    }
    false
}

/// True when two entries share an `id`.
fn has_duplicate_id(entries: &Vec<GuidelineEntry>) -> (found: bool)
    ensures
        found == !ids_unique(entry_models(entries@)),
{
    let ghost models = entry_models(entries@);
    let mut i: usize = 0;
    while i < entries.len()
        invariant
            i <= entries@.len(),
            models == entry_models(entries@),
            forall|p: int, q: int| 0 <= p < q < i ==> (#[trigger] models[p]).id != (
            #[trigger] models[q]).id,
        decreases entries@.len() - i,
    {
        let mut j: usize = 0;
        while j < i
            invariant
                j <= i < entries@.len(),
                models == entry_models(entries@),
                forall|q: int| 0 <= q < j ==> (#[trigger] models[q]).id != models[i as int].id,
            decreases i - j,
        {
            if entries[j].id == entries[i].id {
                proof {
                    assert(models[j as int].id == models[i as int].id);
                }
                return true;
            }
            j = j + 1;
        }
        i = i + 1;
    }
    false
}

/// Renders each entry of an already-validated list into a block.
pub(crate) fn render_block(entries: &Vec<GuidelineEntry>) -> (block: DirectiveBlock)
    ensures
        block@ == render_text(entry_models(entries@)),
{
    let text = render_entries(entries);
    DirectiveBlock { text }
}

/// Renders a catalog, validating it first: an entry with an empty `id` or
/// `directive_name` aborts with `MalformedGuideline`, duplicate `id`s
/// abort with `DuplicateGuideline`, and no partial output is produced.
/// A well-formed catalog always renders.
pub fn render_registry(registry: &Registry) -> (r: Result<DirectiveBlock, RenderError>)
    ensures
        r is Ok <==> registry_wf(registry@),
        r matches Ok(block) ==> block@ == render_text(registry@),
        r == Err::<DirectiveBlock, RenderError>(RenderError::MalformedGuideline) <==> !all_entries_wf(
            registry@,
        ),
        r == Err::<DirectiveBlock, RenderError>(RenderError::DuplicateGuideline) <==> (
        all_entries_wf(registry@) && !ids_unique(registry@)),
{
    let entries = registry.entries();
    if has_malformed_entry(entries) {
        return Err(RenderError::MalformedGuideline);
    }
    if has_duplicate_id(entries) {
        return Err(RenderError::DuplicateGuideline);
    }
    let text = render_entries(entries);
    Ok(DirectiveBlock { text })
}

} // verus!
