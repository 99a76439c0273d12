//! Catalog-wide guarantees of the emitter, stated and proved over the
//! rendering model: which directive names come out build-breaking, that
//! rendering is deterministic, and that optional or disabled entries only
//! ever appear commented out.

use crate::emitter::{
    annotation_text, directive_core, entry_text, is_active, render_text, severity_keyword,
};
use crate::registry::{EntryModel, Tier};
use vstd::prelude::*;

verus! {

/// An entry's fragment is an active, build-breaking directive.
pub open spec fn renders_hard_fail(e: EntryModel) -> bool {
    is_active(e) && severity_keyword(e.tier) == "deny"@
}

/// The directive names that the rendered output carries with hard-fail
/// severity.
pub open spec fn hard_fail_directive_names(s: Seq<EntryModel>) -> Set<Seq<char>> {
    Set::new(
        |n: Seq<char>|
            exists|i: int|
                0 <= i < s.len() && renders_hard_fail(#[trigger] s[i]) && s[i].directive_name == n,
    )
}

/// The directive names of the catalog's enabled REQUIRED entries.
pub open spec fn enabled_required_directive_names(s: Seq<EntryModel>) -> Set<Seq<char>> {
    Set::new(
        |n: Seq<char>|
            exists|i: int|
                0 <= i < s.len() && (#[trigger] s[i]).tier == Tier::Required && s[i].enabled
                    && s[i].directive_name == n,
    )
}

/// Whatever the catalog's ordering and contents, the set of directive
/// names rendered with hard-fail severity is exactly the set of directive
/// names of the enabled REQUIRED entries.
pub proof fn lemma_hard_fail_names_are_enabled_required(s: Seq<EntryModel>)
    ensures
        hard_fail_directive_names(s) == enabled_required_directive_names(s),
{
    assert("deny"@ != "warn"@) by {
        reveal_strlit("deny");
        reveal_strlit("warn");
        assert("deny"@[0] == 'd');
        assert("warn"@[0] == 'w');
    }
    assert forall|e: EntryModel| renders_hard_fail(e) <==> (e.tier == Tier::Required
        && e.enabled) by {
        match e.tier {
            Tier::Required => {},
            Tier::Recommended => {},
            Tier::Optional => {},
        }
    }
    assert(hard_fail_directive_names(s) =~= enabled_required_directive_names(s));
}

/// Rendering is a pure function of the catalog: two renders of the same
/// registry contents are byte-identical. The rendering functions pin
/// their output to `render_text` of the registry's model, so this closes
/// the argument that repeated calls cannot differ.
pub proof fn lemma_render_deterministic(s: Seq<EntryModel>, first: Seq<char>, second: Seq<char>)
    requires
        first == render_text(s),
        second == render_text(s),
    ensures
        first == second,
{
}

/// The output decomposes around any one entry: everything before it, its
/// own fragment, everything after it, in catalog order.
pub proof fn lemma_render_decomposes(s: Seq<EntryModel>, i: int)
    requires
        0 <= i < s.len(),
    ensures
        render_text(s) == render_text(s.take(i)) + entry_text(s[i]) + render_text(s.skip(i + 1)),
    decreases s.len(),
{
    if i == s.len() - 1 {
        assert(s.drop_last() =~= s.take(i));
        assert(s.skip(i + 1) =~= Seq::<EntryModel>::empty());
        assert(render_text(s) =~= render_text(s.take(i)) + entry_text(s[i]) + render_text(
            s.skip(i + 1),
        ));
    } else {
        lemma_render_decomposes(s.drop_last(), i);
        assert(s.drop_last().take(i) =~= s.take(i));
        assert(s.drop_last()[i] == s[i]);
        assert(s.drop_last().skip(i + 1) =~= s.skip(i + 1).drop_last());
        assert(s.skip(i + 1).last() == s.last());
        assert(render_text(s) =~= render_text(s.take(i)) + entry_text(s[i]) + render_text(
            s.skip(i + 1),
        ));
    }
}

/// Every OPTIONAL entry appears in the output in commented form, never as
/// an active directive: at its place in the block stands its annotation
/// followed by the commented-out directive.
pub proof fn lemma_optional_rendered_commented(s: Seq<EntryModel>, i: int)
    requires
        0 <= i < s.len(),
        s[i].tier == Tier::Optional,
    ensures
        !is_active(s[i]),
        render_text(s) == render_text(s.take(i)) + (annotation_text(s[i]) + ("// "@
            + directive_core(s[i]))) + render_text(s.skip(i + 1)),
{
    lemma_render_decomposes(s, i);
}

/// Every disabled entry — in particular one at REQUIRED or RECOMMENDED
/// tier — appears in the output commented out, not as an active
/// directive.
pub proof fn lemma_disabled_rendered_commented(s: Seq<EntryModel>, i: int)
    requires
        0 <= i < s.len(),
        !s[i].enabled,
    ensures
        !is_active(s[i]),
        render_text(s) == render_text(s.take(i)) + (annotation_text(s[i]) + ("// "@
            + directive_core(s[i]))) + render_text(s.skip(i + 1)),
{
    lemma_render_decomposes(s, i);
}

} // verus!
