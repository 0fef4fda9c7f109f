//! The library's laws: properties of the generated change list, stated over
//! the spec-level model and proved once for all inputs.

use vstd::prelude::*;
use crate::changes::{ChangeView, RequirementConfigView};
use crate::generator::{
    GeneratorView, spec_contract_change, spec_run, spec_test_change, spec_toml_change,
};
use crate::templates::{spec_contract_template, spec_contract_template_prefix};

verus! {

/// Law: one run yields exactly two changes without a test stub and exactly
/// three with one, in the fixed order contract file, test stub, manifest
/// edit.
pub proof fn lemma_run_shape(g: GeneratorView, deps: Seq<Seq<char>>)
    ensures
        spec_run(g, false, deps).len() == 2,
        spec_run(g, false, deps)[0] == spec_contract_change(g),
        spec_run(g, false, deps)[1] == spec_toml_change(g, deps),
        spec_run(g, true, deps).len() == 3,
        spec_run(g, true, deps)[0] == spec_contract_change(g),
        spec_run(g, true, deps)[1] == spec_test_change(g),
        spec_run(g, true, deps)[2] == spec_toml_change(g, deps),
        spec_contract_change(g) is AddFile,
        spec_test_change(g) is AddFile,
        spec_toml_change(g, deps) is EditTOML,
{
}

/// Law: the contract file is named after the module and placed under the
/// project's `contracts` directory.
pub proof fn lemma_contract_file_naming(g: GeneratorView)
    ensures
        (spec_contract_change(g) matches ChangeView::AddFile(f) && {
            &&& f.name == g.contract_name + ".clar"@
            &&& f.path == g.project_path + "/contracts/"@ + g.contract_name + ".clar"@
        }),
{
    assert(g.project_path + "/contracts/"@ + (g.contract_name + ".clar"@) =~= g.project_path
        + "/contracts/"@ + g.contract_name + ".clar"@);
}

/// Law: caller-supplied literal source content is passed through verbatim,
/// whatever the module name.
pub proof fn lemma_literal_source_passthrough(g: GeneratorView, s: Seq<char>)
    requires
        g.source == Some(s),
    ensures
        (spec_contract_change(g) matches ChangeView::AddFile(f) && f.content == s),
{
}

/// Law: when no literal source is supplied, the synthesized skeleton embeds
/// the module name right after the fixed banner prefix.
pub proof fn lemma_template_embeds_name(name: Seq<char>)
    ensures
        spec_contract_template_prefix().len() == 4,
        spec_contract_template(name).subrange(4, 4 + name.len() as int) == name,
{
    reveal_strlit("\n;; ");
    assert(spec_contract_template(name).subrange(4, 4 + name.len() as int) =~= name);
}

/// Law: the generated change list is a function of the request and the
/// per-call inputs alone — identical requests yield identical lists.
pub proof fn lemma_run_deterministic(
    g1: GeneratorView,
    g2: GeneratorView,
    with_test: bool,
    deps: Seq<Seq<char>>,
)
    requires
        g1 == g2,
    ensures
        spec_run(g1, with_test, deps) == spec_run(g2, with_test, deps),
{
}

/// Law: the manifest edit registers exactly one contract, keyed by the
/// module name, with the dependency list exactly as supplied and the
/// conventional project-relative path; it registers no requirements.
pub proof fn lemma_manifest_entry(g: GeneratorView, deps: Seq<Seq<char>>)
    ensures
        (spec_toml_change(g, deps) matches ChangeView::EditTOML(t) && {
            &&& t.contracts_to_add.dom() == set![g.contract_name]
            &&& t.contracts_to_add.len() == 1
            &&& t.contracts_to_add[g.contract_name].depends_on == deps
            &&& t.contracts_to_add[g.contract_name].path == "contracts/"@ + g.contract_name
                + ".clar"@
            &&& t.requirements_to_add == Seq::<RequirementConfigView>::empty()
            &&& t.requirements_to_add.len() == 0
        }),
{
    let t = spec_toml_change(g, deps)->EditTOML_0;
    assert(t.contracts_to_add.dom() =~= set![g.contract_name]);
    assert("contracts/"@ + (g.contract_name + ".clar"@) =~= "contracts/"@ + g.contract_name
        + ".clar"@);
}

/// Law: two runs for different module names in the same project yield
/// manifest edits that target the same manifest file but register disjoint
/// sets of contracts, so an applier may merge them in either order.
pub proof fn lemma_runs_for_distinct_modules_merge(
    g1: GeneratorView,
    g2: GeneratorView,
    deps1: Seq<Seq<char>>,
    deps2: Seq<Seq<char>>,
)
    requires
        g1.project_path == g2.project_path,
        g1.contract_name != g2.contract_name,
    ensures
        ({
            &&& spec_toml_change(g1, deps1) matches ChangeView::EditTOML(t1)
            &&& spec_toml_change(g2, deps2) matches ChangeView::EditTOML(t2)
            &&& t1.path == t2.path
            &&& t1.contracts_to_add.dom().disjoint(t2.contracts_to_add.dom())
        }),
{
    let t1 = spec_toml_change(g1, deps1)->EditTOML_0;
    let t2 = spec_toml_change(g2, deps2)->EditTOML_0;
    assert(t1.contracts_to_add.dom() =~= set![g1.contract_name]);
    assert(t2.contracts_to_add.dom() =~= set![g2.contract_name]);
}

} // verus!
