//! The request of the batch endpoint: words already described, without
//! readings or mnemonics.

use vstd::prelude::*;

verus! {

/// A batch of words to store.
#[derive(Default, Debug, Clone, PartialEq)]
pub struct NihongoWordReq {
    pub words: Vec<NihongoWordReqWord>,
}

/// One word of a batch.
#[derive(Default, Debug, Clone, PartialEq)]
pub struct NihongoWordReqWord {
    pub word: String,
    pub definition: String,
    pub sentence: String,
    pub word_tenses: Vec<NihongoWordReqTense>,
}

/// One tense of a word of a batch.
#[derive(Default, Debug, Clone, PartialEq)]
pub struct NihongoWordReqTense {
    pub word: String,
    pub sentence: String,
    pub tense_type: String,
}

} // verus!
