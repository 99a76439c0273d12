//! The fixed guideline catalog: the organization's coding-standard rows,
//! authored as literal data. Adding, removing or re-tiering a guideline
//! means editing this catalog; the emitter needs no change.
//!
//! Two housekeeping rows carry no guideline code of their own in the
//! upstream standard and are catalogued here under the `G.CLP.*`
//! identifiers; the tier-to-severity mapping cannot express a plain
//! allowance, so they are kept present but disabled.

use crate::emitter::{all_entries_wf, ids_unique, registry_wf, render_block, render_text, DirectiveBlock};
use crate::registry::{entry_models, EntryModel, GuidelineEntry, Registry, Tier};
use vstd::prelude::*;
use vstd::string::StringExecFns;

verus! {

/// Builds one entry model; `default_catalog` and `default_registry` list
/// the same rows through this and `entry`.
pub open spec fn em(
    id: Seq<char>,
    tier: Tier,
    directive_name: Seq<char>,
    enabled: bool,
    rationale_note: Seq<char>,
) -> EntryModel {
    EntryModel { id, tier, directive_name, enabled, rationale_note }
}

/// Builds one catalog row.
fn entry(id: &str, tier: Tier, directive_name: &str, enabled: bool, rationale_note: &str) -> (e:
    GuidelineEntry)
    ensures
        e@ == em(id@, tier, directive_name@, enabled, rationale_note@),
{
    GuidelineEntry {
        id: String::from_str(id),
        tier,
        directive_name: String::from_str(directive_name),
        enabled,
        rationale_note: String::from_str(rationale_note),
    }
}

/// The model of the fixed catalog, row by row.
pub open spec fn default_catalog() -> Seq<EntryModel> {
    seq![
        em("G.VAR.02"@, Tier::Required, "non_ascii_idents"@, true, "Do not use non-ASCII characters in identifiers"@),
        em("G.CLP.01"@, Tier::Required, "clippy::disallowed_names"@, false, ""@),
        em("G.CLP.02"@, Tier::Required, "clippy::blanket_clippy_restriction_lints"@, false, ""@),
        em("G.CMT.01"@, Tier::Optional, "clippy::missing_errors_doc"@, true, "Add Error documentation in the docs of public functions that return Result"@),
        em("G.CMT.02"@, Tier::Required, "clippy::missing_panics_doc"@, true, "Add Panic documentation in the docs of public APIs that may panic under certain circumstances"@),
        em("G.VAR.03"@, Tier::Recommended, "clippy::shadow_reuse, clippy::shadow_same, clippy::shadow_unrelated"@, true, "Variable shadowing should be used carefully"@),
        em("G.CNS.05"@, Tier::Recommended, "clippy::missing_const_for_fn"@, true, "Use const fn for functions or methods wherever applicable"@),
        em("G.TYP.01"@, Tier::Required, "clippy::as_conversions, clippy::cast_lossless, clippy::cast_possible_truncation, clippy::cast_possible_wrap, clippy::ptr_as_ptr"@, true, "Prefer safe conversion functions over `as` for type casting"@),
        em("G.VAR.01"@, Tier::Recommended, "clippy::many_single_char_names"@, true, "Avoid using too many meaningless variable names when destructuring tuples with more than four variables"@),
        em("G.TYP.02"@, Tier::Recommended, "clippy::default_numeric_fallback"@, true, "Explicitly specify the type for numeric literals"@),
        em("G.TYP.03"@, Tier::Recommended, "clippy::checked_conversions"@, true, "Use `try_from` methods instead of relying on numeric boundaries for safe conversion"@),
        em("G.TYP.BOL.02"@, Tier::Recommended, "clippy::match_bool"@, true, "Use `if` expressions instead of `match` for boolean conditions"@),
        em("G.TYP.BOL.05"@, Tier::Recommended, "clippy::needless_bitwise_bool"@, true, "Use logical operators (&&/||) instead of bitwise operators (&/|) for boolean operations when not necessary"@),
        em("G.TYP.INT.01"@, Tier::Recommended, "clippy::arithmetic_side_effects"@, true, "Consider the risks of integer overflow, wrapping, and truncation in integer arithmetic"@),
        em("G.TYP.INT.02"@, Tier::Required, "clippy::cast_sign_loss"@, true, "Avoid `as` casting between signed and unsigned integers; use safe conversion functions"@),
        em("G.TYP.INT.03"@, Tier::Required, "clippy::modulo_arithmetic"@, true, "Avoid using `%` for modulo operations on negative numbers"@),
        em("G.TYP.FLT.02"@, Tier::Required, "clippy::cast_precision_loss"@, true, "Avoid precision loss when casting from any numeric type to floating-point; use safe conversion functions"@),
        em("G.TYP.FLT.03"@, Tier::Required, "clippy::float_arithmetic, clippy::float_cmp, clippy::float_cmp_const"@, true, "Be cautious of precision loss in floating-point arithmetic and comparisons"@),
        em("G.TYP.FLT.04"@, Tier::Required, "clippy::imprecise_flops, clippy::suboptimal_flops"@, true, "Use Rust's built-in methods for floating-point calculations"@),
        em("G.TYP.ARR.01"@, Tier::Optional, "clippy::large_stack_arrays"@, true, "Use static variables instead of constants for large global arrays"@),
        em("G.TYP.SCT.01"@, Tier::Recommended, "clippy::exhaustive_structs"@, true, "Add `#[non_exhaustive]` attribute to publicly exported structs"@),
        em("G.TYP.ENM.05"@, Tier::Recommended, "clippy::exhaustive_enums"@, true, "Add `#[non_exhaustive]` attribute to publicly exported enums"@),
        em("G.TYP.SCT.02"@, Tier::Optional, "clippy::struct_excessive_bools"@, true, "Consider refactoring when a struct contains more than three boolean fields"@),
        em("G.FUD.03"@, Tier::Recommended, "clippy::fn_params_excessive_bools"@, true, "Consider using a custom struct or enum instead of many boolean parameters in function signatures"@),
        em("G.TYP.ENM.04"@, Tier::Recommended, "clippy::enum_glob_use"@, true, "Avoid using glob imports for enum variants in `use` statements"@),
        em("G.CTF.02"@, Tier::Recommended, "clippy::else_if_without_else"@, true, "Ensure `else` branches are present whenever `else if` is used"@),
        em("G.STR.02"@, Tier::Optional, "clippy::string_add_assign, clippy::string_add"@, true, "Use `push_str` method for appending strings"@),
        em("G.STR.03"@, Tier::Recommended, "clippy::string_lit_as_bytes"@, true, "Convert string literals containing only ASCII characters to byte sequences using `b\"str\"` syntax instead of `as_bytes()`"@),
        em("G.STR.05"@, Tier::Recommended, "clippy::string_slice"@, true, "Take care to avoid disrupting UTF-8 encoding when slicing strings at specific positions"@),
        em("G.FUD.02"@, Tier::Recommended, "clippy::large_types_passed_by_value"@, true, "Prefer passing large values by reference if function parameters implement `Copy`"@),
        em("G.FUD.04"@, Tier::Recommended, "clippy::trivially_copy_pass_by_ref"@, true, "Pass small `Copy` type values by value instead of by reference"@),
        em("G.FUD.05"@, Tier::Optional, "clippy::inline_always"@, true, "Avoid using `inline(always)` for functions indiscriminately"@),
        em("G.GEN.02"@, Tier::Required, "clippy::inefficient_to_string"@, true, "Be cautious to avoid using generic default implementations of some methods from Rust's standard library; prefer specific type implementations"@),
        em("G.TRA.BLN.01"@, Tier::Optional, "clippy::default_trait_access"@, true, "Prefer using the concrete type's `default()` method over calling `Default::default()`"@),
        em("G.TRA.BLN.02"@, Tier::Required, "clippy::copy_iterator"@, true, "Do not implement the `Copy` trait for iterators"@),
        em("G.TRA.BLN.07"@, Tier::Recommended, "clippy::cloned_instead_of_copied"@, true, "Use `copied` method instead of `cloned` for iterable `Copy` types"@),
        em("G.ERR.01"@, Tier::Recommended, "clippy::unwrap_used"@, true, "Avoid using `unwrap` indiscriminately when handling `Option<T>` and `Result<T, E>`"@),
        em("G.MOD.03"@, Tier::Recommended, "clippy::wildcard_imports"@, true, "Avoid using wildcard imports in module declarations"@),
        em("G.MOD.04"@, Tier::Required, "clippy::self_named_module_files"@, true, "Avoid using different module layout styles within the same project"@),
        em("G.CAR.02"@, Tier::Recommended, "clippy::cargo_common_metadata"@, true, "Ensure that necessary metadata is present in the `Cargo.toml` of the crate"@),
        em("G.CAR.03"@, Tier::Recommended, "clippy::negative_feature_names, clippy::redundant_feature_names"@, true, "Avoid negative or redundant prefixes and suffixes in feature names"@),
        em("G.CAR.04"@, Tier::Required, "clippy::wildcard_dependencies"@, true, "Avoid using wildcard dependencies in `Cargo.toml`"@),
        em("G.MAC.01"@, Tier::Recommended, "clippy::dbg_macro"@, true, "Only use the `dbg!()` macro for debugging code"@),
        em("G.ASY.01"@, Tier::Required, "clippy::await_holding_lock"@, true, "Ensure that locks are released before `await` is called in asynchronous code"@),
        em("G.ASY.02"@, Tier::Required, "clippy::await_holding_refcell_ref"@, true, "Handle `RefCell` references across `await` points"@),
        em("G.ASY.04"@, Tier::Recommended, "clippy::unused_async"@, true, "Avoid defining unnecessary async functions"@),
        em("G.UNS.SAS.02"@, Tier::Required, "clippy::debug_assert_with_mut_call"@, true, "Use `assert!` instead of `debug_assert!` to verify boundary conditions in unsafe functions"@),
    ]
}

/// The fixed catalog as a registry, row for row the model
/// `default_catalog` gives.
#[verifier::rlimit(100)]
pub fn default_registry() -> (r: Registry)
    ensures
        r@ == default_catalog(),
{
    let mut v: Vec<GuidelineEntry> = Vec::new();
    v.push(entry("G.VAR.02", Tier::Required, "non_ascii_idents", true, "Do not use non-ASCII characters in identifiers"));
    v.push(entry("G.CLP.01", Tier::Required, "clippy::disallowed_names", false, ""));
    v.push(entry("G.CLP.02", Tier::Required, "clippy::blanket_clippy_restriction_lints", false, ""));
    v.push(entry("G.CMT.01", Tier::Optional, "clippy::missing_errors_doc", true, "Add Error documentation in the docs of public functions that return Result"));
    v.push(entry("G.CMT.02", Tier::Required, "clippy::missing_panics_doc", true, "Add Panic documentation in the docs of public APIs that may panic under certain circumstances"));
    v.push(entry("G.VAR.03", Tier::Recommended, "clippy::shadow_reuse, clippy::shadow_same, clippy::shadow_unrelated", true, "Variable shadowing should be used carefully"));
    v.push(entry("G.CNS.05", Tier::Recommended, "clippy::missing_const_for_fn", true, "Use const fn for functions or methods wherever applicable"));
    v.push(entry("G.TYP.01", Tier::Required, "clippy::as_conversions, clippy::cast_lossless, clippy::cast_possible_truncation, clippy::cast_possible_wrap, clippy::ptr_as_ptr", true, "Prefer safe conversion functions over `as` for type casting"));
    v.push(entry("G.VAR.01", Tier::Recommended, "clippy::many_single_char_names", true, "Avoid using too many meaningless variable names when destructuring tuples with more than four variables"));
    v.push(entry("G.TYP.02", Tier::Recommended, "clippy::default_numeric_fallback", true, "Explicitly specify the type for numeric literals"));
    v.push(entry("G.TYP.03", Tier::Recommended, "clippy::checked_conversions", true, "Use `try_from` methods instead of relying on numeric boundaries for safe conversion"));
    v.push(entry("G.TYP.BOL.02", Tier::Recommended, "clippy::match_bool", true, "Use `if` expressions instead of `match` for boolean conditions"));
    v.push(entry("G.TYP.BOL.05", Tier::Recommended, "clippy::needless_bitwise_bool", true, "Use logical operators (&&/||) instead of bitwise operators (&/|) for boolean operations when not necessary"));
    v.push(entry("G.TYP.INT.01", Tier::Recommended, "clippy::arithmetic_side_effects", true, "Consider the risks of integer overflow, wrapping, and truncation in integer arithmetic"));
    v.push(entry("G.TYP.INT.02", Tier::Required, "clippy::cast_sign_loss", true, "Avoid `as` casting between signed and unsigned integers; use safe conversion functions"));
    v.push(entry("G.TYP.INT.03", Tier::Required, "clippy::modulo_arithmetic", true, "Avoid using `%` for modulo operations on negative numbers"));
    v.push(entry("G.TYP.FLT.02", Tier::Required, "clippy::cast_precision_loss", true, "Avoid precision loss when casting from any numeric type to floating-point; use safe conversion functions"));
    v.push(entry("G.TYP.FLT.03", Tier::Required, "clippy::float_arithmetic, clippy::float_cmp, clippy::float_cmp_const", true, "Be cautious of precision loss in floating-point arithmetic and comparisons"));
    v.push(entry("G.TYP.FLT.04", Tier::Required, "clippy::imprecise_flops, clippy::suboptimal_flops", true, "Use Rust's built-in methods for floating-point calculations"));
    v.push(entry("G.TYP.ARR.01", Tier::Optional, "clippy::large_stack_arrays", true, "Use static variables instead of constants for large global arrays"));
    v.push(entry("G.TYP.SCT.01", Tier::Recommended, "clippy::exhaustive_structs", true, "Add `#[non_exhaustive]` attribute to publicly exported structs"));
    v.push(entry("G.TYP.ENM.05", Tier::Recommended, "clippy::exhaustive_enums", true, "Add `#[non_exhaustive]` attribute to publicly exported enums"));
    v.push(entry("G.TYP.SCT.02", Tier::Optional, "clippy::struct_excessive_bools", true, "Consider refactoring when a struct contains more than three boolean fields"));
    v.push(entry("G.FUD.03", Tier::Recommended, "clippy::fn_params_excessive_bools", true, "Consider using a custom struct or enum instead of many boolean parameters in function signatures"));
    v.push(entry("G.TYP.ENM.04", Tier::Recommended, "clippy::enum_glob_use", true, "Avoid using glob imports for enum variants in `use` statements"));
    v.push(entry("G.CTF.02", Tier::Recommended, "clippy::else_if_without_else", true, "Ensure `else` branches are present whenever `else if` is used"));
    v.push(entry("G.STR.02", Tier::Optional, "clippy::string_add_assign, clippy::string_add", true, "Use `push_str` method for appending strings"));
    v.push(entry("G.STR.03", Tier::Recommended, "clippy::string_lit_as_bytes", true, "Convert string literals containing only ASCII characters to byte sequences using `b\"str\"` syntax instead of `as_bytes()`"));
    v.push(entry("G.STR.05", Tier::Recommended, "clippy::string_slice", true, "Take care to avoid disrupting UTF-8 encoding when slicing strings at specific positions"));
    v.push(entry("G.FUD.02", Tier::Recommended, "clippy::large_types_passed_by_value", true, "Prefer passing large values by reference if function parameters implement `Copy`"));
    v.push(entry("G.FUD.04", Tier::Recommended, "clippy::trivially_copy_pass_by_ref", true, "Pass small `Copy` type values by value instead of by reference"));
    v.push(entry("G.FUD.05", Tier::Optional, "clippy::inline_always", true, "Avoid using `inline(always)` for functions indiscriminately"));
    v.push(entry("G.GEN.02", Tier::Required, "clippy::inefficient_to_string", true, "Be cautious to avoid using generic default implementations of some methods from Rust's standard library; prefer specific type implementations"));
    v.push(entry("G.TRA.BLN.01", Tier::Optional, "clippy::default_trait_access", true, "Prefer using the concrete type's `default()` method over calling `Default::default()`"));
    v.push(entry("G.TRA.BLN.02", Tier::Required, "clippy::copy_iterator", true, "Do not implement the `Copy` trait for iterators"));
    v.push(entry("G.TRA.BLN.07", Tier::Recommended, "clippy::cloned_instead_of_copied", true, "Use `copied` method instead of `cloned` for iterable `Copy` types"));
    v.push(entry("G.ERR.01", Tier::Recommended, "clippy::unwrap_used", true, "Avoid using `unwrap` indiscriminately when handling `Option<T>` and `Result<T, E>`"));
    v.push(entry("G.MOD.03", Tier::Recommended, "clippy::wildcard_imports", true, "Avoid using wildcard imports in module declarations"));
    v.push(entry("G.MOD.04", Tier::Required, "clippy::self_named_module_files", true, "Avoid using different module layout styles within the same project"));
    v.push(entry("G.CAR.02", Tier::Recommended, "clippy::cargo_common_metadata", true, "Ensure that necessary metadata is present in the `Cargo.toml` of the crate"));
    v.push(entry("G.CAR.03", Tier::Recommended, "clippy::negative_feature_names, clippy::redundant_feature_names", true, "Avoid negative or redundant prefixes and suffixes in feature names"));
    v.push(entry("G.CAR.04", Tier::Required, "clippy::wildcard_dependencies", true, "Avoid using wildcard dependencies in `Cargo.toml`"));
    v.push(entry("G.MAC.01", Tier::Recommended, "clippy::dbg_macro", true, "Only use the `dbg!()` macro for debugging code"));
    v.push(entry("G.ASY.01", Tier::Required, "clippy::await_holding_lock", true, "Ensure that locks are released before `await` is called in asynchronous code"));
    v.push(entry("G.ASY.02", Tier::Required, "clippy::await_holding_refcell_ref", true, "Handle `RefCell` references across `await` points"));
    v.push(entry("G.ASY.04", Tier::Recommended, "clippy::unused_async", true, "Avoid defining unnecessary async functions"));
    v.push(entry("G.UNS.SAS.02", Tier::Required, "clippy::debug_assert_with_mut_call", true, "Use `assert!` instead of `debug_assert!` to verify boundary conditions in unsafe functions"));
    proof {
        assert(entry_models(v@) =~= default_catalog());
    }
    Registry::new(v)
}

/// The single operation of the generator: renders the fixed catalog into
/// a directive block ready to splice at the root of a compilation unit.
/// Total — the fixed catalog is statically well-formed, so no error path
/// exists — and a pure function of the catalog: every call returns the
/// same text.
pub fn render_guidelines() -> (block: DirectiveBlock)
    ensures
        block@ == render_text(default_catalog()),
{
    let registry = default_registry();
    let entries = registry.entries();
    proof {
        assert(entry_models(entries@) == registry@);
    }
    render_block(entries)
}


/// A handful of characters that tell every identifier of the fixed
/// catalog apart; two equal identifiers would have equal keys.
spec fn id_key(a: Seq<char>) -> (int, char, char, char, char, char, char) {
    (a.len() as int, a[2], a[3], a[6], a[7], a[a.len() - 2], a[a.len() - 1])
}

/// The fixed catalog is statically well-formed: every row carries a
/// nonempty identifier and directive name, and no two rows share an
/// identifier. The dynamic validation errors are therefore unreachable
/// for it.
#[verifier::rlimit(100)]
pub proof fn lemma_default_catalog_well_formed()
    ensures
        registry_wf(default_catalog()),
{
        reveal_strlit("G.ASY.01");
        reveal_strlit("G.ASY.02");
        reveal_strlit("G.ASY.04");
        reveal_strlit("G.CAR.02");
        reveal_strlit("G.CAR.03");
        reveal_strlit("G.CAR.04");
        reveal_strlit("G.CLP.01");
        reveal_strlit("G.CLP.02");
        reveal_strlit("G.CMT.01");
        reveal_strlit("G.CMT.02");
        reveal_strlit("G.CNS.05");
        reveal_strlit("G.CTF.02");
        reveal_strlit("G.ERR.01");
        reveal_strlit("G.FUD.02");
        reveal_strlit("G.FUD.03");
        reveal_strlit("G.FUD.04");
        reveal_strlit("G.FUD.05");
        reveal_strlit("G.GEN.02");
        reveal_strlit("G.MAC.01");
        reveal_strlit("G.MOD.03");
        reveal_strlit("G.MOD.04");
        reveal_strlit("G.STR.02");
        reveal_strlit("G.STR.03");
        reveal_strlit("G.STR.05");
        reveal_strlit("G.TRA.BLN.01");
        reveal_strlit("G.TRA.BLN.02");
        reveal_strlit("G.TRA.BLN.07");
        reveal_strlit("G.TYP.01");
        reveal_strlit("G.TYP.02");
        reveal_strlit("G.TYP.03");
        reveal_strlit("G.TYP.ARR.01");
        reveal_strlit("G.TYP.BOL.02");
        reveal_strlit("G.TYP.BOL.05");
        reveal_strlit("G.TYP.ENM.04");
        reveal_strlit("G.TYP.ENM.05");
        reveal_strlit("G.TYP.FLT.02");
        reveal_strlit("G.TYP.FLT.03");
        reveal_strlit("G.TYP.FLT.04");
        reveal_strlit("G.TYP.INT.01");
        reveal_strlit("G.TYP.INT.02");
        reveal_strlit("G.TYP.INT.03");
        reveal_strlit("G.TYP.SCT.01");
        reveal_strlit("G.TYP.SCT.02");
        reveal_strlit("G.UNS.SAS.02");
        reveal_strlit("G.VAR.01");
        reveal_strlit("G.VAR.02");
        reveal_strlit("G.VAR.03");
        reveal_strlit("clippy::arithmetic_side_effects");
        reveal_strlit("clippy::as_conversions, clippy::cast_lossless, clippy::cast_possible_truncation, clippy::cast_possible_wrap, clippy::ptr_as_ptr");
        reveal_strlit("clippy::await_holding_lock");
        reveal_strlit("clippy::await_holding_refcell_ref");
        reveal_strlit("clippy::blanket_clippy_restriction_lints");
        reveal_strlit("clippy::cargo_common_metadata");
        reveal_strlit("clippy::cast_precision_loss");
        reveal_strlit("clippy::cast_sign_loss");
        reveal_strlit("clippy::checked_conversions");
        reveal_strlit("clippy::cloned_instead_of_copied");
        reveal_strlit("clippy::copy_iterator");
        reveal_strlit("clippy::dbg_macro");
        reveal_strlit("clippy::debug_assert_with_mut_call");
        reveal_strlit("clippy::default_numeric_fallback");
        reveal_strlit("clippy::default_trait_access");
        reveal_strlit("clippy::disallowed_names");
        reveal_strlit("clippy::else_if_without_else");
        reveal_strlit("clippy::enum_glob_use");
        reveal_strlit("clippy::exhaustive_enums");
        reveal_strlit("clippy::exhaustive_structs");
        reveal_strlit("clippy::float_arithmetic, clippy::float_cmp, clippy::float_cmp_const");
        reveal_strlit("clippy::fn_params_excessive_bools");
        reveal_strlit("clippy::imprecise_flops, clippy::suboptimal_flops");
        reveal_strlit("clippy::inefficient_to_string");
        reveal_strlit("clippy::inline_always");
        reveal_strlit("clippy::large_stack_arrays");
        reveal_strlit("clippy::large_types_passed_by_value");
        reveal_strlit("clippy::many_single_char_names");
        reveal_strlit("clippy::match_bool");
        reveal_strlit("clippy::missing_const_for_fn");
        reveal_strlit("clippy::missing_errors_doc");
        reveal_strlit("clippy::missing_panics_doc");
        reveal_strlit("clippy::modulo_arithmetic");
        reveal_strlit("clippy::needless_bitwise_bool");
        reveal_strlit("clippy::negative_feature_names, clippy::redundant_feature_names");
        reveal_strlit("clippy::self_named_module_files");
        reveal_strlit("clippy::shadow_reuse, clippy::shadow_same, clippy::shadow_unrelated");
        reveal_strlit("clippy::string_add_assign, clippy::string_add");
        reveal_strlit("clippy::string_lit_as_bytes");
        reveal_strlit("clippy::string_slice");
        reveal_strlit("clippy::struct_excessive_bools");
        reveal_strlit("clippy::trivially_copy_pass_by_ref");
        reveal_strlit("clippy::unused_async");
        reveal_strlit("clippy::unwrap_used");
        reveal_strlit("clippy::wildcard_dependencies");
        reveal_strlit("clippy::wildcard_imports");
        reveal_strlit("non_ascii_idents");
    assert(all_entries_wf(default_catalog()));
    let cat = default_catalog();
    assert forall|i: int, j: int| 0 <= i < j < cat.len() implies (#[trigger] cat[i]).id != (
    #[trigger] cat[j]).id by {
        assert(id_key(cat[i].id) != id_key(cat[j].id));
    }
    assert(ids_unique(cat));
}

} // verus!
