//! Generator: orchestrates the template synthesizer and the manifest entry
//! builder into the ordered change list for one "add contract" request.

use vstd::prelude::*;
use vstd::hash_map::StringHashMap;
use crate::changes::{
    ChangeView, Changes, ContractConfig, ContractConfigView, FileCreation, FileCreationView,
    TOMLEdition, TOMLEditionView,
};
use crate::templates::{contract_content, spec_contract_content, spec_test_template, test_content};

verus! {

/// Mathematical model of a [`GetChangesForNewContract`] request: the three
/// inputs given at construction.
#[verifier::ext_equal]
pub struct GeneratorView {
    pub project_path: Seq<char>,
    pub contract_name: Seq<char>,
    pub source: Option<Seq<char>>,
}

/// Bare file name of the module's source file: the module name with the
/// source extension.
pub open spec fn spec_contract_file_name(name: Seq<char>) -> Seq<char> {
    name + ".clar"@
}

/// Bare file name of the module's test stub.
pub open spec fn spec_test_file_name(name: Seq<char>) -> Seq<char> {
    name + "_test.ts"@
}

/// The module's file path relative to the project root, as registered in
/// the manifest.
pub open spec fn spec_contract_rel_path(name: Seq<char>) -> Seq<char> {
    "contracts/"@ + spec_contract_file_name(name)
}

/// The change that creates the module's source file.
pub open spec fn spec_contract_change(g: GeneratorView) -> ChangeView {
    ChangeView::AddFile(FileCreationView {
        comment: "Creating file contracts/"@ + spec_contract_file_name(g.contract_name),
        name: spec_contract_file_name(g.contract_name),
        path: g.project_path + "/contracts/"@ + spec_contract_file_name(g.contract_name),
        content: spec_contract_content(g.contract_name, g.source),
    })
}

/// The change that creates the module's test stub.
pub open spec fn spec_test_change(g: GeneratorView) -> ChangeView {
    ChangeView::AddFile(FileCreationView {
        comment: "Creating file tests/"@ + spec_test_file_name(g.contract_name),
        name: spec_test_file_name(g.contract_name),
        path: g.project_path + "/tests/"@ + spec_test_file_name(g.contract_name),
        content: spec_test_template(),
    })
}

/// The change that registers the module in the project manifest: a single
/// contract entry keyed by the module name, carrying the dependency list
/// exactly as supplied, and no requirement entries.
pub open spec fn spec_toml_change(g: GeneratorView, deps: Seq<Seq<char>>) -> ChangeView {
    ChangeView::EditTOML(TOMLEditionView {
        comment: "Adding contract "@ + g.contract_name + " to Clarinet.toml"@,
        path: g.project_path + "/Clarinet.toml"@,
        contracts_to_add: Map::empty().insert(
            g.contract_name,
            ContractConfigView {
                depends_on: deps,
                path: spec_contract_rel_path(g.contract_name),
            },
        ),
        requirements_to_add: Seq::empty(),
    })
}

/// The full ordered change list for one request: contract file, optional
/// test stub, manifest edit — in that sequence.
pub open spec fn spec_run(g: GeneratorView, with_test: bool, deps: Seq<Seq<char>>) -> Seq<
    ChangeView,
> {
    if with_test {
        seq![spec_contract_change(g), spec_test_change(g), spec_toml_change(g, deps)]
    } else {
        seq![spec_contract_change(g), spec_toml_change(g, deps)]
    }
}

/// Computes the changes needed to add one new contract module to a project.
///
/// The generator holds only the three inputs given at construction; each
/// call of [`run`](Self::run) is an independent, pure computation.
pub struct GetChangesForNewContract {
    project_path: String,
    contract_name: String,
    source: Option<String>,
}

impl View for GetChangesForNewContract {
    type V = GeneratorView;

    closed spec fn view(&self) -> GeneratorView {
        GeneratorView {
            project_path: self.project_path@,
            contract_name: self.contract_name@,
            source: self.source.deep_view(),
        }
    }
}

impl GetChangesForNewContract {
    /// Builds a generator for the given project path and module name, with
    /// optional literal source content for the module's file.
    pub fn new(project_path: String, contract_name: String, source: Option<String>) -> (g: Self)
        ensures
            g@ == (GeneratorView {
                project_path: project_path@,
                contract_name: contract_name@,
                source: source.deep_view(),
            }),
    {
        Self { project_path, contract_name, source }
    }

    /// Returns the ordered change list for this request: the module's
    /// source file, its test stub when `with_test` is set, and the manifest
    /// edit registering the module with the dependency list `deps`.
    pub fn run(&self, with_test: bool, deps: Vec<String>) -> (changes: Vec<Changes>)
        ensures
            changes.deep_view() == spec_run(self@, with_test, deps.deep_view()),
    {
        let ghost deps_v = deps.deep_view();
        let mut changes: Vec<Changes> = Vec::new();
        changes.push(self.create_template_contract());
        if with_test {
            changes.push(self.create_template_test());
        }
        changes.push(self.index_contract_in_clarinet_toml(deps));
        proof {
            assert(changes.deep_view() =~~= spec_run(self@, with_test, deps_v));
        }
        changes
    }

    /// The `AddFile` change for the module's source file.
    fn create_template_contract(&self) -> (c: Changes)
        ensures
            c@ == spec_contract_change(self@),
    {
        let content = contract_content(self.contract_name.as_str(), &self.source);
        let name = self.contract_name.clone().concat(".clar");
        let path = self.project_path.clone().concat("/contracts/").concat(name.as_str());
        let comment = "Creating file contracts/".to_owned().concat(name.as_str());
        Changes::AddFile(FileCreation { comment, name, content, path })
    }

    /// The `AddFile` change for the module's test stub.
    fn create_template_test(&self) -> (c: Changes)
        ensures
            c@ == spec_test_change(self@),
    {
        let content = test_content();
        let name = self.contract_name.clone().concat("_test.ts");
        let path = self.project_path.clone().concat("/tests/").concat(name.as_str());
        let comment = "Creating file tests/".to_owned().concat(name.as_str());
        Changes::AddFile(FileCreation { comment, name, content, path })
    }

    /// The `EditTOML` change that registers the module in the manifest.
    fn index_contract_in_clarinet_toml(&self, deps: Vec<String>) -> (c: Changes)
        ensures
            c@ == spec_toml_change(self@, deps.deep_view()),
    {
        let ghost deps_v = deps.deep_view();
        let contract_file_name = self.contract_name.clone().concat(".clar");
        let path = self.project_path.clone().concat("/Clarinet.toml");

        let contract_config = ContractConfig {
            depends_on: deps,
            path: "contracts/".to_owned().concat(contract_file_name.as_str()),
        };
        let mut contracts_to_add = StringHashMap::<ContractConfig>::new();
        contracts_to_add.insert(self.contract_name.clone(), contract_config);

        let comment = "Adding contract ".to_owned().concat(self.contract_name.as_str()).concat(
            " to Clarinet.toml",
        );
        let c = Changes::EditTOML(
            TOMLEdition { comment, path, contracts_to_add, requirements_to_add: Vec::new() },
        );
        proof {
            assert(c@ =~~= spec_toml_change(self@, deps_v));
        }
        c
    }
}

} // verus!
