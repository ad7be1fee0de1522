//! Processes: the identifiers of their entry and link types, and the stored
//! entry as far as resources depend on it.

use vstd::prelude::*;
use crate::attributes::{copy_text, ProcessSpecificationAddress};

verus! {

pub const PROCESS_ENTRY_TYPE: &'static str = "vf_process";

pub const PROCESS_EVENT_INPUTS_LINK_TAG: &'static str = "inputs";

pub const PROCESS_EVENT_OUTPUTS_LINK_TAG: &'static str = "outputs";

pub const PROCESS_COMMITMENT_INPUTS_LINK_TAG: &'static str = "committed_inputs";

pub const PROCESS_COMMITMENT_OUTPUTS_LINK_TAG: &'static str = "committed_outputs";

pub const PROCESS_INTENT_INPUTS_LINK_TAG: &'static str = "intended_inputs";

pub const PROCESS_INTENT_OUTPUTS_LINK_TAG: &'static str = "intended_outputs";

pub const PROCESS_EVENT_INPUTS_READ_API_METHOD: &'static str = "_internal_read_process_inputs";

pub const PROCESS_EVENT_OUTPUTS_READ_API_METHOD: &'static str = "_internal_read_process_outputs";

pub const PROCESS_COMMITMENT_INPUTS_READ_API_METHOD: &'static str =
    "_internal_read_process_committed_inputs";

pub const PROCESS_COMMITMENT_OUTPUTS_READ_API_METHOD: &'static str =
    "_internal_read_process_committed_outputs";

pub const PROCESS_INTENT_INPUTS_READ_API_METHOD: &'static str = "_internal_read_process_intended_inputs";

pub const PROCESS_INTENT_OUTPUTS_READ_API_METHOD: &'static str = "_internal_read_process_intended_outputs";

/// A process as it is stored.
#[derive(Debug, PartialEq, Eq)]
pub struct EntryData {
    pub name: String,
    /// The specification that the process follows, which names the stage
    /// that its outputs are in.
    pub based_on: Option<ProcessSpecificationAddress>,
    pub note: Option<String>,
}

impl Clone for EntryData {
    fn clone(&self) -> (copy: Self)
        ensures
            copy == *self,
    {
        EntryData { name: self.name.clone(), based_on: self.based_on, note: copy_text(&self.note) }
    }
}

} // verus!
