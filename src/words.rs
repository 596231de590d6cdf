use vstd::prelude::*;

verus! {

/// A word as the model describes it in a structured answer.
#[derive(Default, Debug, Clone, PartialEq)]
pub struct NihongoWordOpenAiRes {
    pub word: String,
    pub is_kanji: bool,
    pub word_reading: String,
    pub definition: String,
    pub sentence: String,
    pub sentence_translation: String,
    pub kanji_mnemonic: Option<String>,
    pub spoken_mnemonic: Option<String>,
    pub word_tenses: Vec<NihongoWordOpenAiResTense>,
}

/// One tense of a word, as the model describes it.
#[derive(Default, Debug, Clone, PartialEq)]
pub struct NihongoWordOpenAiResTense {
    pub word: String,
    pub sentence: String,
    pub tense_type: String,
}

/// A single word to look up.
#[derive(Default, Debug, Clone, PartialEq)]
pub struct NihongoWordReq {
    pub word: String,
}

/// A batch of words described elsewhere, ready to store.
#[derive(Default, Debug, Clone, PartialEq)]
pub struct NihongoWordReqChatgpt {
    pub words: Vec<NihongoWordReqWordChatgpt>,
}

/// One word of a batch.
#[derive(Default, Debug, Clone, PartialEq)]
pub struct NihongoWordReqWordChatgpt {
    pub word: String,
    pub is_kanji: bool,
    pub word_reading: String,
    pub definition: String,
    pub sentence: String,
    pub sentence_translation: String,
    pub kanji_mnemonic: Option<String>,
    pub spoken_mnemonic: Option<String>,
    pub word_tenses: Vec<NihongoWordReqTenseChatgpt>,
}

/// One tense of a word of a batch.
#[derive(Default, Debug, Clone, PartialEq)]
pub struct NihongoWordReqTenseChatgpt {
    pub word: String,
    pub sentence: String,
    pub tense_type: String,
}

/// A word as it is written to storage.
#[derive(Default, Debug, Clone, PartialEq)]
pub struct NihongoWordInsert {
    pub word: String,
    pub is_kanji: bool,
    pub word_reading: String,
    pub definition: String,
    pub sentence: String,
    pub sentence_translation: String,
    pub kanji_mnemonic: Option<String>,
    pub spoken_mnemonic: Option<String>,
    pub word_tenses: Vec<NihongoWordTenseInsert>,
}

/// A tense as it is written to storage.
#[derive(Default, Debug, Clone, PartialEq)]
pub struct NihongoWordTenseInsert {
    pub word: String,
    pub sentence: String,
    pub tense_type: String,
}

/// The storage form of a tense, field for field.
pub open spec fn tense_insert(word: String, sentence: String, tense_type: String) -> NihongoWordTenseInsert {
    NihongoWordTenseInsert { word, sentence, tense_type }
}

impl NihongoWordOpenAiResTense {
    pub open spec fn spec_insert(self) -> NihongoWordTenseInsert {
        tense_insert(self.word, self.sentence, self.tense_type)
    }

    /// The storage form of the tense: the same three fields.
    pub fn into_insert(self) -> (r: NihongoWordTenseInsert)
        ensures
            r == self.spec_insert(),
    {
        NihongoWordTenseInsert { word: self.word, sentence: self.sentence, tense_type: self.tense_type }
    }
}

impl NihongoWordReqTenseChatgpt {
    pub open spec fn spec_insert(self) -> NihongoWordTenseInsert {
        tense_insert(self.word, self.sentence, self.tense_type)
    }

    /// The storage form of the tense: the same three fields.
    pub fn into_insert(self) -> (r: NihongoWordTenseInsert)
        ensures
            r == self.spec_insert(),
    {
        NihongoWordTenseInsert { word: self.word, sentence: self.sentence, tense_type: self.tense_type }
    }
}

impl NihongoWordOpenAiRes {
    /// The storage form of the word: every field kept, and each tense turned
    /// into its storage form in the same order.
    pub fn into_insert(self) -> (r: NihongoWordInsert)
        ensures
            r.word == self.word,
            r.is_kanji == self.is_kanji,
            r.word_reading == self.word_reading,
            r.definition == self.definition,
            r.sentence == self.sentence,
            r.sentence_translation == self.sentence_translation,
            r.kanji_mnemonic == self.kanji_mnemonic,
            r.spoken_mnemonic == self.spoken_mnemonic,
            r.word_tenses@ == self.word_tenses@.map_values(
                |t: NihongoWordOpenAiResTense| t.spec_insert(),
            ),
    {
        let ghost source = self.word_tenses@;
        let mut tenses: Vec<NihongoWordTenseInsert> = Vec::new();
        for t in it: self.word_tenses
            invariant
                it.seq() == source,
                tenses@ == source.take(it.index() as int).map_values(
                    |t: NihongoWordOpenAiResTense| t.spec_insert(),
                ),
        {
            proof {
                assert(source.take(it.index() + 1) =~= source.take(it.index() as int).push(t));
            }
            tenses.push(t.into_insert());
            assert(tenses@ =~= source.take(it.index() + 1).map_values(
                |t: NihongoWordOpenAiResTense| t.spec_insert(),
            ));
        }
        assert(source.take(source.len() as int) =~= source);
        NihongoWordInsert {
            word: self.word,
            is_kanji: self.is_kanji,
            word_reading: self.word_reading,
            definition: self.definition,
            sentence: self.sentence,
            sentence_translation: self.sentence_translation,
            kanji_mnemonic: self.kanji_mnemonic,
            spoken_mnemonic: self.spoken_mnemonic,
            word_tenses: tenses,
        }
    }
}

impl NihongoWordReqWordChatgpt {
    /// The storage form of the word: every field kept, and each tense turned
    /// into its storage form in the same order.
    pub fn into_insert(self) -> (r: NihongoWordInsert)
        ensures
            r.word == self.word,
            r.is_kanji == self.is_kanji,
            r.word_reading == self.word_reading,
            r.definition == self.definition,
            r.sentence == self.sentence,
            r.sentence_translation == self.sentence_translation,
            r.kanji_mnemonic == self.kanji_mnemonic,
            r.spoken_mnemonic == self.spoken_mnemonic,
            r.word_tenses@ == self.word_tenses@.map_values(
                |t: NihongoWordReqTenseChatgpt| t.spec_insert(),
            ),
    {
        let ghost source = self.word_tenses@;
        let mut tenses: Vec<NihongoWordTenseInsert> = Vec::new();
        for t in it: self.word_tenses
            invariant
                it.seq() == source,
                tenses@ == source.take(it.index() as int).map_values(
                    |t: NihongoWordReqTenseChatgpt| t.spec_insert(),
                ),
        {
            proof {
                assert(source.take(it.index() + 1) =~= source.take(it.index() as int).push(t));
            }
            tenses.push(t.into_insert());
            assert(tenses@ =~= source.take(it.index() + 1).map_values(
                |t: NihongoWordReqTenseChatgpt| t.spec_insert(),
            ));
        }
        assert(source.take(source.len() as int) =~= source);
        NihongoWordInsert {
            word: self.word,
            is_kanji: self.is_kanji,
            word_reading: self.word_reading,
            definition: self.definition,
            sentence: self.sentence,
            sentence_translation: self.sentence_translation,
            kanji_mnemonic: self.kanji_mnemonic,
            spoken_mnemonic: self.spoken_mnemonic,
            word_tenses: tenses,
        }
    }
}

} // verus!
