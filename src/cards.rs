use vstd::prelude::*;
use crate::grouping::{NihongoWordTense, NihongoWordsGrouped};

verus! {

/// The flashcard application's media folder, where audio clips are saved.
pub const ANKI_MEDIA_DIR: &'static str = "/home/dan/.local/share/Anki2/User 1/collection.media";

/// The deck that new cards go to.
pub const DECK_NAME: &'static str = "Dan's Nihongo Deck";

/// The note type of new cards.
pub const DECK_FORMAT: &'static str = "JP1Kv3";

/// The tag put on every new card.
pub const CARD_TAG: &'static str = "lang-crack";

/// The voice that reads words and sentences aloud.
pub const VOICE_ID: &'static str = "IKne3meq5aSn9XLyUdCD";

/// The kind of clip that reads the word.
pub const WORD_CLIP: &'static str = "word";

/// The kind of clip that reads the example sentence.
pub const SENTENCE_CLIP: &'static str = "sentence";

/// Text of the card's kanji field for a word written in kanji.
pub const KANJI_TRUE: &'static str = "True";

/// Text of the card's kanji field for a word not written in kanji.
pub const KANJI_FALSE: &'static str = "False";

/// The name of an audio clip of the given kind for a word and its reading.
pub open spec fn audio_file_name_spec(file_type: Seq<char>, word: Seq<char>, word_reading: Seq<char>) -> Seq<char> {
    "lang_crack_audio_"@ + file_type + "_"@ + word + "_"@ + word_reading + ".mp3"@
}

/// The name of an audio clip of the given kind for a word and its reading.
pub fn audio_file_name(file_type: &str, word: &str, word_reading: &str) -> (r: String)
    ensures
        r@ == audio_file_name_spec(file_type@, word@, word_reading@),
{
    String::from_str("lang_crack_audio_").concat(file_type).concat("_").concat(word).concat("_").concat(
        word_reading,
    ).concat(".mp3")
}

/// A clip to write: where, and what.
#[derive(Clone, Debug)]
pub struct AudioFile {
    pub path: String,
    pub bytes: Vec<u8>,
}

/// Says how an audio clip of the given kind is saved: under its name in the
/// media folder, with the given bytes. Writing it is the caller's part.
pub fn save_file(word: &str, word_reading: &str, bytes: Vec<u8>, file_type: &str) -> (r: AudioFile)
    ensures
        r.path@ == ANKI_MEDIA_DIR@ + "/"@ + audio_file_name_spec(file_type@, word@, word_reading@),
        r.bytes@ == bytes@,
{
    let name = audio_file_name(file_type, word, word_reading);
    let path = String::from_str(ANKI_MEDIA_DIR).concat("/").concat(name.as_str());
    AudioFile { path, bytes }
}

/// How a card field refers to a clip of the given kind.
pub fn sound_reference(file_type: &str, word: &str, word_reading: &str) -> (r: String)
    ensures
        r@ == "[sound:"@ + audio_file_name_spec(file_type@, word@, word_reading@) + "]"@,
{
    let name = audio_file_name(file_type, word, word_reading);
    String::from_str("[sound:").concat(name.as_str()).concat("]")
}

/// What `{:?}` prints for a text: the text quoted, with its special
/// characters escaped.
pub uninterp spec fn debug_quoted(s: Seq<char>) -> Seq<char>;

/// Relies on `<str as Debug>::fmt`, which quotes and escapes the text.
#[verifier::external_body]
fn debug_quote(s: &str) -> (r: String)
    ensures
        r@ == debug_quoted(s@),
{
    format!("{:?}", s)
}

/// An optional text, with absence read as the empty text.
pub open spec fn text_or_empty(o: Option<String>) -> Seq<char> {
    match o {
        Some(s) => s@,
        None => Seq::empty(),
    }
}

/// A line of the card's tense field, from its three parts as printed.
pub open spec fn joined_tense_line(tense_type: Seq<char>, word: Seq<char>, sentence: Seq<char>) -> Seq<char> {
    "\n                "@ + tense_type + ": "@ + word + " | "@ + sentence + " \n\n            "@
}

/// The line of the card's tense field for one tense: its type, word and
/// sentence, each quoted as `{:?}` prints it, an absent part as empty.
pub open spec fn tense_line(t: NihongoWordTense) -> Seq<char> {
    joined_tense_line(
        debug_quoted(text_or_empty(t.tense_type)),
        debug_quoted(text_or_empty(t.tense_word)),
        debug_quoted(text_or_empty(t.tense_sentence)),
    )
}

/// Joins the three printed parts of a tense into its line.
pub fn join_tense_line(tense_type: &str, word: &str, sentence: &str) -> (r: String)
    ensures
        r@ == joined_tense_line(tense_type@, word@, sentence@),
{
    String::from_str("\n                ").concat(tense_type).concat(": ").concat(word).concat(" | ").concat(sentence).concat(
        " \n\n            ",
    )
}

/// The card's tense field: one line for each tense, in order.
pub open spec fn tenses_text(ts: Seq<NihongoWordTense>) -> Seq<char>
    decreases ts.len(),
{
    if ts.len() == 0 {
        Seq::empty()
    } else {
        tenses_text(ts.drop_last()) + tense_line(ts.last())
    }
}

fn optional_text(o: &Option<String>) -> (r: &str)
    ensures
        r@ == text_or_empty(*o),
{
    match o {
        Some(s) => s.as_str(),
        None => {
            proof {
                reveal_strlit("");
            }
            ""
        },
    }
}

fn copy_text(o: &Option<String>) -> (r: Option<String>)
    ensures
        r == *o,
{
    match o {
        Some(s) => Some(s.clone()),
        None => None,
    }
}

/// The card's tense field for a list of tenses.
pub fn format_tenses(tenses: &Vec<NihongoWordTense>) -> (r: String)
    ensures
        r@ == tenses_text(tenses@),
{
    let mut out = String::new();
    let mut i: usize = 0;
    while i < tenses.len()
        invariant
            i <= tenses.len(),
            out@ == tenses_text(tenses@.take(i as int)),
        decreases tenses.len() - i,
    {
        let t = &tenses[i];
        let tense_type = debug_quote(optional_text(&t.tense_type));
        let word = debug_quote(optional_text(&t.tense_word));
        let sentence = debug_quote(optional_text(&t.tense_sentence));
        let line = join_tense_line(tense_type.as_str(), word.as_str(), sentence.as_str());
        proof {
            let next = tenses@.take(i + 1);
            assert(next.drop_last() =~= tenses@.take(i as int));
            assert(next.last() == tenses@[i as int]);
        }
        out.append(line.as_str());
        i = i + 1;
    }
    assert(tenses@.take(tenses.len() as int) =~= tenses@);
    out
}

/// The fields of a new flashcard.
#[derive(Clone, Debug)]
pub struct AnkiNote {
    /// The card's sort index, drawn at random by the caller.
    pub index: u32,
    pub word: String,
    pub word_with_reading: String,
    pub definition: String,
    pub example_sentence: String,
    pub sentence_translation: String,
    pub word_audio: String,
    pub sentence_audio: String,
    pub kanji: String,
    pub kanji_mnemonic: Option<String>,
    pub spoken_mnemonic: Option<String>,
    pub tenses: String,
}

/// The flashcard of a word: its fields, references to its two clips, its kanji
/// flag as text and its tenses one per line, with the given sort index.
pub fn anki_note(word: &NihongoWordsGrouped, index: u32) -> (r: AnkiNote)
    ensures
        r.index == index,
        r.word@ == word.word@,
        r.word_with_reading@ == word.word_reading@,
        r.definition@ == word.definition@,
        r.example_sentence@ == word.sentence@,
        r.sentence_translation@ == word.sentence_translation@,
        r.word_audio@ == "[sound:"@ + audio_file_name_spec(WORD_CLIP@, word.word@, word.word_reading@)
            + "]"@,
        r.sentence_audio@ == "[sound:"@ + audio_file_name_spec(
            SENTENCE_CLIP@,
            word.word@,
            word.word_reading@,
        ) + "]"@,
        r.kanji@ == if word.is_kanji {
            KANJI_TRUE@
        } else {
            KANJI_FALSE@
        },
        r.kanji_mnemonic == word.kanji_mnemonic,
        r.spoken_mnemonic == word.spoken_mnemonic,
        r.tenses@ == tenses_text(word.tenses@),
{
    let kanji = if word.is_kanji {
        String::from_str(KANJI_TRUE)
    } else {
        String::from_str(KANJI_FALSE)
    };
    AnkiNote {
        index,
        word: word.word.clone(),
        word_with_reading: word.word_reading.clone(),
        definition: word.definition.clone(),
        example_sentence: word.sentence.clone(),
        sentence_translation: word.sentence_translation.clone(),
        word_audio: sound_reference(WORD_CLIP, word.word.as_str(), word.word_reading.as_str()),
        sentence_audio: sound_reference(SENTENCE_CLIP, word.word.as_str(), word.word_reading.as_str()),
        kanji,
        kanji_mnemonic: copy_text(&word.kanji_mnemonic),
        spoken_mnemonic: copy_text(&word.spoken_mnemonic),
        tenses: format_tenses(&word.tenses),
    }
}

} // verus!
