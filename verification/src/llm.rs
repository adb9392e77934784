//! Model identifiers for inferencing and embedding requests.
//!
//! The host interface names models by string; these enums carry the
//! well-known models and an escape hatch for any other name.  The name
//! methods give the exact identifier handed to the host.

use vstd::prelude::*;

verus! {

/// The model used for inferencing.
#[derive(Clone, Copy, PartialEq, Eq, Debug)]
pub enum InferencingModel<'a> {
    /// The llama2 chat model.
    Llama2Chat,
    /// The codellama instruct model.
    CodellamaInstruct,
    /// Any other model, by its host-side name.
    Other(&'a str),
}

impl<'a> InferencingModel<'a> {
    /// The host-side identifier of this model.
    pub open spec fn name_spec(&self) -> Seq<char> {
        match self {
            InferencingModel::Llama2Chat => "llama2-chat"@,
            InferencingModel::CodellamaInstruct => "codellama-instruct"@,
            InferencingModel::Other(s) => s@,
        }
    }

    /// The host-side identifier of this model.
    pub fn name(&self) -> (r: &str)
        ensures
            r@ == self.name_spec(),
    {
        match self {
            InferencingModel::Llama2Chat => "llama2-chat",
            InferencingModel::CodellamaInstruct => "codellama-instruct",
            InferencingModel::Other(s) => s,
        }
    }
}

/// The model used for generating embeddings.
#[derive(Clone, Copy, PartialEq, Eq, Debug)]
pub enum EmbeddingModel<'a> {
    /// The all-minilm-l6-v2 sentence transformer.
    AllMiniLmL6V2,
    /// Any other model, by its host-side name.
    Other(&'a str),
}

impl<'a> EmbeddingModel<'a> {
    /// The host-side identifier of this model.
    pub open spec fn name_spec(&self) -> Seq<char> {
        match self {
            EmbeddingModel::AllMiniLmL6V2 => "all-minilm-l6-v2"@,
            EmbeddingModel::Other(s) => s@,
        }
    }

    /// The host-side identifier of this model.
    pub fn name(&self) -> (r: &str)
        ensures
            r@ == self.name_spec(),
    {
        match self {
            EmbeddingModel::AllMiniLmL6V2 => "all-minilm-l6-v2",
            EmbeddingModel::Other(s) => s,
        }
    }
}

} // verus!
