//! The change descriptor model: a closed variant type describing one pending
//! project mutation, together with the value types each variant carries.
//!
//! A change describes intent, not an already-applied effect; it is immutable
//! once constructed and is rendered on disk by an external applier.

use vstd::prelude::*;
use vstd::hash_map::StringHashMap;

verus! {

/// Mathematical model of a [`FileCreation`] change.
#[verifier::ext_equal]
pub struct FileCreationView {
    pub comment: Seq<char>,
    pub name: Seq<char>,
    pub path: Seq<char>,
    pub content: Seq<char>,
}

/// Mathematical model of a [`ContractConfig`].
#[verifier::ext_equal]
pub struct ContractConfigView {
    pub depends_on: Seq<Seq<char>>,
    pub path: Seq<char>,
}

/// Mathematical model of a [`RequirementConfig`].
#[verifier::ext_equal]
pub struct RequirementConfigView {
    pub contract_id: Seq<char>,
}

/// Mathematical model of a [`TOMLEdition`] change.
#[verifier::ext_equal]
pub struct TOMLEditionView {
    pub comment: Seq<char>,
    pub path: Seq<char>,
    pub contracts_to_add: Map<Seq<char>, ContractConfigView>,
    pub requirements_to_add: Seq<RequirementConfigView>,
}

/// Mathematical model of a [`Changes`] value.
#[verifier::ext_equal]
pub enum ChangeView {
    AddFile(FileCreationView),
    EditTOML(TOMLEditionView),
}

/// Request to create one new file with the given full text.
pub struct FileCreation {
    /// Human-readable description of the change.
    pub comment: String,
    /// Bare file name of the new file.
    pub name: String,
    /// Full destination path.
    pub path: String,
    /// Complete file text, fully determined at computation time.
    pub content: String,
}

/// Attributes registered for one module in the project manifest.
pub struct ContractConfig {
    /// Module names this module depends on, exactly as supplied by the
    /// caller: not deduplicated, not sorted, not validated for existence.
    pub depends_on: Vec<String>,
    /// The module's file path relative to the project root.
    pub path: String,
}

/// One external requirement to register in the project manifest.
pub struct RequirementConfig {
    /// Identifier of the required external contract.
    pub contract_id: String,
}

/// Request to merge structured data into an existing manifest file.
pub struct TOMLEdition {
    /// Human-readable description of the change.
    pub comment: String,
    /// Path of the manifest file to edit.
    pub path: String,
    /// Contract entries to insert, keyed by module name.
    pub contracts_to_add: StringHashMap<ContractConfig>,
    /// Requirement entries to append.
    pub requirements_to_add: Vec<RequirementConfig>,
}

/// One pending project mutation, to be previewed, merged or applied by an
/// external collaborator.
pub enum Changes {
    AddFile(FileCreation),
    EditTOML(TOMLEdition),
}

impl View for FileCreation {
    type V = FileCreationView;

    open spec fn view(&self) -> FileCreationView {
        FileCreationView {
            comment: self.comment@,
            name: self.name@,
            path: self.path@,
            content: self.content@,
        }
    }
}

impl DeepView for FileCreation {
    type V = FileCreationView;

    open spec fn deep_view(&self) -> FileCreationView {
        self@
    }
}

impl View for ContractConfig {
    type V = ContractConfigView;

    open spec fn view(&self) -> ContractConfigView {
        ContractConfigView { depends_on: self.depends_on.deep_view(), path: self.path@ }
    }
}

impl DeepView for ContractConfig {
    type V = ContractConfigView;

    open spec fn deep_view(&self) -> ContractConfigView {
        self@
    }
}

impl View for RequirementConfig {
    type V = RequirementConfigView;

    open spec fn view(&self) -> RequirementConfigView {
        RequirementConfigView { contract_id: self.contract_id@ }
    }
}

impl DeepView for RequirementConfig {
    type V = RequirementConfigView;

    open spec fn deep_view(&self) -> RequirementConfigView {
        self@
    }
}

impl View for TOMLEdition {
    type V = TOMLEditionView;

    open spec fn view(&self) -> TOMLEditionView {
        TOMLEditionView {
            comment: self.comment@,
            path: self.path@,
            contracts_to_add: self.contracts_to_add@.map_values(|c: ContractConfig| c@),
            requirements_to_add: self.requirements_to_add.deep_view(),
        }
    }
}

impl DeepView for TOMLEdition {
    type V = TOMLEditionView;

    open spec fn deep_view(&self) -> TOMLEditionView {
        self@
    }
}

impl View for Changes {
    type V = ChangeView;

    open spec fn view(&self) -> ChangeView {
        match self {
            Changes::AddFile(f) => ChangeView::AddFile(f@),
            Changes::EditTOML(t) => ChangeView::EditTOML(t@),
        }
    }
}

impl DeepView for Changes {
    type V = ChangeView;

    open spec fn deep_view(&self) -> ChangeView {
        self@
    }
}

} // verus!
