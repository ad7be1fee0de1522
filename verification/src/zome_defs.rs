//! What the modules declare to the ledger: their entry types, the links
//! that an entry type admits, and the indexes that a record type keeps.

use vstd::prelude::*;
use crate::rpc::AgentPubKey;

verus! {

/// The entry type of fulfillments.
pub const FULFILLMENT_ENTRY_TYPE: &'static str = "vf_fulfillment";

/// The entry type of the paths that anchor records.
pub const PATH_ENTRY_TYPE: &'static str = "hdk.path";

/// The entry type that anchors a resource.
pub const RESOURCE_BASE_ENTRY_TYPE: &'static str = "vf_economic_resource_baseurl";

/// The entry type that anchors a resource specification kept elsewhere.
pub const ECONOMIC_RESOURCE_SPECIFICATION_BASE_ENTRY_TYPE: &'static str =
    "vf_resource_specification_baseurl";

/// The number of validations that an entry needs where nothing else is said.
pub const DEFAULT_REQUIRED_VALIDATIONS: u8 = 5;

/// Who may see the entries of a type.
#[derive(Clone, Copy, Debug, PartialEq, Eq, Structural)]
pub enum EntryVisibility {
    Public,
    Private,
}

/// The declaration of an entry type.
#[derive(Debug, PartialEq, Eq)]
pub struct EntryDef {
    pub id: String,
    pub visibility: EntryVisibility,
    pub required_validations: u8,
}

/// The entry types of the fulfillment module: the paths that anchor its
/// records, and the fulfillments themselves, which are public and need one
/// validation.
pub fn entry_defs() -> (defs: Vec<EntryDef>)
    ensures
        defs@.len() == 2,
        defs@[0].id@ == PATH_ENTRY_TYPE@,
        defs@[0].visibility == EntryVisibility::Public,
        defs@[0].required_validations == DEFAULT_REQUIRED_VALIDATIONS,
        defs@[1].id@ == FULFILLMENT_ENTRY_TYPE@,
        defs@[1].visibility == EntryVisibility::Public,
        defs@[1].required_validations == 1,
{
    let mut defs: Vec<EntryDef> = Vec::new();
    defs.push(
        EntryDef {
            id: PATH_ENTRY_TYPE.to_owned(),
            visibility: EntryVisibility::Public,
            required_validations: DEFAULT_REQUIRED_VALIDATIONS,
        },
    );
    defs.push(
        EntryDef {
            id: FULFILLMENT_ENTRY_TYPE.to_owned(),
            visibility: EntryVisibility::Public,
            required_validations: 1,
        },
    );
    defs
}

/// The identifiers of a list of entry types, in order: what a record store
/// is set up with.
pub fn entry_def_ids(defs: &Vec<EntryDef>) -> (ids: Vec<String>)
    ensures
        ids@.len() == defs@.len(),
        forall|i: int| 0 <= i < defs@.len() ==> (#[trigger] ids@[i])@ == defs@[i].id@,
{
    let mut ids: Vec<String> = Vec::new();
    let mut i: usize = 0;
    while i < defs.len()
        invariant
            i <= defs.len(),
            ids@.len() == i,
            forall|k: int| 0 <= k < i ==> (#[trigger] ids@[k])@ == defs@[k].id@,
        decreases defs.len() - i,
    {
        ids.push(defs[i].id.clone());
        i = i + 1;
    }
    ids
}

/// A link that entries of one type admit: to entries of `target_type`, under
/// `link_type`.
#[derive(Debug, PartialEq, Eq)]
pub struct LinkDef {
    pub target_type: String,
    pub link_type: String,
}

/// The declaration of an entry type together with the links that it admits.
/// Every entry and every link of such a type is valid.
#[derive(Debug, PartialEq, Eq)]
pub struct ValidatingEntryType {
    pub name: String,
    pub description: String,
    pub sharing: EntryVisibility,
    pub links_to: Vec<LinkDef>,
}

/// The declaration of the anchor for resource specifications that are kept
/// elsewhere: a public entry that links to the resources that conform to the
/// specification.
pub fn resource_specification_base_entry_def() -> (def: ValidatingEntryType)
    ensures
        def.name@ == ECONOMIC_RESOURCE_SPECIFICATION_BASE_ENTRY_TYPE@,
        def.description@
            == "Base anchor for external ResourceSpecification records to provide lookup functionality"@,
        def.sharing == EntryVisibility::Public,
        def.links_to@.len() == 1,
        def.links_to@[0].target_type@ == RESOURCE_BASE_ENTRY_TYPE@,
        def.links_to@[0].link_type@
            == crate::economic_resource::RESOURCE_SPECIFICATION_CONFORMING_RESOURCE_LINK_TYPE@,
{
    let mut links_to: Vec<LinkDef> = Vec::new();
    links_to.push(
        LinkDef {
            target_type: RESOURCE_BASE_ENTRY_TYPE.to_owned(),
            link_type: crate::economic_resource::RESOURCE_SPECIFICATION_CONFORMING_RESOURCE_LINK_TYPE.to_owned(),
        },
    );
    ValidatingEntryType {
        name: ECONOMIC_RESOURCE_SPECIFICATION_BASE_ENTRY_TYPE.to_owned(),
        description: "Base anchor for external ResourceSpecification records to provide lookup functionality".to_owned(),
        sharing: EntryVisibility::Public,
        links_to,
    }
}

/// Every agent is admitted.
pub fn validate_agent(validation_data: &AgentPubKey) -> (verdict: Result<(), String>)
    ensures
        verdict is Ok,
{
    Ok(())
}

/// Where the other end of an index lives.
#[derive(Clone, Copy, Debug, PartialEq, Eq, Structural)]
pub enum IndexScope {
    /// In the same partition.
    Local,
    /// In another partition.
    Remote,
}

/// One index of a record type: the relationship by which it is read, where
/// the related records live, their type, and the relationship that leads
/// back.
#[derive(Debug, PartialEq, Eq)]
pub struct IndexDefinition {
    pub relationship: String,
    pub scope: IndexScope,
    pub related_record_type: String,
    pub reciprocal: String,
}

/// Whether `definition` is made of these four.
pub open spec fn is_index(
    definition: IndexDefinition,
    relationship: Seq<char>,
    scope: IndexScope,
    related_record_type: Seq<char>,
    reciprocal: Seq<char>,
) -> bool {
    &&& definition.relationship@ == relationship
    &&& definition.scope == scope
    &&& definition.related_record_type@ == related_record_type
    &&& definition.reciprocal@ == reciprocal
}

fn index(
    relationship: &str,
    scope: IndexScope,
    related_record_type: &str,
    reciprocal: &str,
) -> (definition: IndexDefinition)
    ensures
        is_index(definition, relationship@, scope, related_record_type@, reciprocal@),
{
    IndexDefinition {
        relationship: relationship.to_owned(),
        scope,
        related_record_type: related_record_type.to_owned(),
        reciprocal: reciprocal.to_owned(),
    }
}

/// The indexes that the planning partition keeps for intents.
pub fn intent_indexes() -> (indexes: Vec<IndexDefinition>)
    ensures
        indexes@.len() == 4,
        is_index(indexes@[0], "satisfied_by"@, IndexScope::Local, "satisfaction"@, "satisfies"@),
        is_index(indexes@[1], "input_of"@, IndexScope::Local, "process"@, "intended_inputs"@),
        is_index(indexes@[2], "output_of"@, IndexScope::Local, "process"@, "intended_outputs"@),
        is_index(indexes@[3], "proposed_in"@, IndexScope::Remote, "proposed_intent"@, "publishes"@),
{
    let mut indexes: Vec<IndexDefinition> = Vec::new();
    indexes.push(index("satisfied_by", IndexScope::Local, "satisfaction", "satisfies"));
    indexes.push(index("input_of", IndexScope::Local, "process", "intended_inputs"));
    indexes.push(index("output_of", IndexScope::Local, "process", "intended_outputs"));
    indexes.push(index("proposed_in", IndexScope::Remote, "proposed_intent", "publishes"));
    indexes
}

} // verus!
