//! The files, categories and limits of a run.

use crate::resource::{ResourceDescriptor, ResourceSource, ResourceType};
use vstd::prelude::*;
use vstd::string::*;

verus! {

/// The greatest number of tokens of one input.
pub const MAX_LENGTH: usize = 128;

/// Everything a run depends on that is not its input sentence.
#[derive(Clone, Debug, PartialEq, Eq)]
pub struct PipelineConfig {
    /// The file of the model's weights.
    pub model_path: String,
    /// The script that puts the weights together from their parts.
    pub merge_script: String,
    /// The file of the model's configuration.
    pub config_path: String,
    /// The file of the tokenizer's vocabulary.
    pub vocab_path: String,
    /// The file of the tokenizer's merge rules.
    pub merges_path: String,
    /// The categories a sentence is scored against.
    pub categories: Vec<String>,
    /// The greatest number of tokens of one input.
    pub max_length: usize,
}

/// The configuration the program runs with.
pub fn standard_config() -> (config: PipelineConfig)
    ensures
        config.model_path@ == "src/model/rust_model.ot"@,
        config.merge_script@ == "bin/merge-model-parts.sh"@,
        config.config_path@ == "src/config/main.json"@,
        config.vocab_path@ == "src/config/vocab.json"@,
        config.merges_path@ == "src/config/merges.txt"@,
        config.categories@.len() == 2,
        config.categories@[0]@ == "science"@,
        config.categories@[1]@ == "politics"@,
        config.max_length == MAX_LENGTH,
{
    let mut categories: Vec<String> = Vec::new();
    categories.push(String::from_str("science"));
    categories.push(String::from_str("politics"));
    PipelineConfig {
        model_path: String::from_str("src/model/rust_model.ot"),
        merge_script: String::from_str("bin/merge-model-parts.sh"),
        config_path: String::from_str("src/config/main.json"),
        vocab_path: String::from_str("src/config/vocab.json"),
        merges_path: String::from_str("src/config/merges.txt"),
        categories,
        max_length: MAX_LENGTH,
    }
}

impl PipelineConfig {
    /// The files the model is loaded from, in the order in which they are
    /// resolved: weights, configuration, vocabulary, merge rules. All of
    /// them are local.
    pub fn resources(&self) -> (plan: Vec<ResourceDescriptor>)
        ensures
            plan@.len() == 4,
            plan@[0].kind == ResourceType::Model && plan@[0].location@ == self.model_path@,
            plan@[1].kind == ResourceType::Config && plan@[1].location@ == self.config_path@,
            plan@[2].kind == ResourceType::Vocab && plan@[2].location@ == self.vocab_path@,
            plan@[3].kind == ResourceType::Merges && plan@[3].location@ == self.merges_path@,
            forall|i: int| 0 <= i < 4 ==> (#[trigger] plan@[i]).source == ResourceSource::Local,
    {
        let mut plan: Vec<ResourceDescriptor> = Vec::new();
        plan.push(
            ResourceDescriptor {
                kind: ResourceType::Model,
                source: ResourceSource::Local,
                location: self.model_path.clone(),
            },
        );
        plan.push(
            ResourceDescriptor {
                kind: ResourceType::Config,
                source: ResourceSource::Local,
                location: self.config_path.clone(),
            },
        );
        plan.push(
            ResourceDescriptor {
                kind: ResourceType::Vocab,
                source: ResourceSource::Local,
                location: self.vocab_path.clone(),
            },
        );
        plan.push(
            ResourceDescriptor {
                kind: ResourceType::Merges,
                source: ResourceSource::Local,
                location: self.merges_path.clone(),
            },
        );
        plan
    }
}

} // verus!
