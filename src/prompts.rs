use vstd::prelude::*;
use crate::prompt::{ModelProvider, Prompt};

verus! {

/// Instructions for describing a Japanese word, with the JSON shape of the
/// answer.
pub const WORD_SYSTEM_PROMPT: &'static str = "\n        YOU RESPOND WITH JSON ONLY NO OTHER WORDS AT ALL BESIDES FOR JSON.\n        You are a tool to help users learn Japanese.\n\n        You will be provided with a Japanese word, your job is to do the following:\n        \n        1. Create a definition of the word\n        2. Word reading = Hiragana version of the word\n        3. Create an example sentence using the word (using kanji version of the word and fully in japanese)\n        4. Create an translation of that sentence\n        5. Create a kanji mnemonic for the word (in english)\n        6. Create a spoken mnemonic for the word (in english)\n        7. Create word tenses \n        \n        If word tenses are not needed, return an empty array.\n        \n        Please respond with the below JSON only, NO OTHER WORDS EXCEPT THIS JSON:\n        {\n          'word': <String>,\n          'is_kanji': <Boolean>,\n          'word_reading': <String>,\n          'definition': <String>,\n          'sentence': <String>,\n          'sentence_translation': <String>,\n          'kanji_mnemonic': <String>,\n          'spoken_mnemonic': <String>,\n          'word_tenses': [\n            {\n              'word': <String>,\n              'sentence': <String>,\n              'tense_type': <String>\n            }\n            ...\n          ]\n        }\n    ";

/// Put before the word in the user message.
pub const USER_PROMPT_PREFIX: &'static str = "\n        Word: ";

/// Put after the word in the user message.
pub const USER_PROMPT_SUFFIX: &'static str = "\n    ";

/// The model that describes single words.
pub const WORD_MODEL: &'static str = "mistral-medium";

/// The system message of a word lookup.
pub fn get_system_prompt() -> (r: String)
    ensures
        r@ == WORD_SYSTEM_PROMPT@,
{
    String::from_str(WORD_SYSTEM_PROMPT)
}

/// The user message of a word lookup: the prefix, the word, then the suffix.
pub fn get_user_prompt(word: &str) -> (r: String)
    ensures
        r@ == USER_PROMPT_PREFIX@ + word@ + USER_PROMPT_SUFFIX@,
{
    String::from_str(USER_PROMPT_PREFIX).concat(word).concat(USER_PROMPT_SUFFIX)
}

/// The prompt that asks for a description of `word`.
pub fn word_prompt(word: &str) -> (r: Prompt)
    ensures
        r.system_prompt@ == WORD_SYSTEM_PROMPT@,
        r.user_prompt@ == USER_PROMPT_PREFIX@ + word@ + USER_PROMPT_SUFFIX@,
        r.model@ == WORD_MODEL@,
        r.provider == ModelProvider::Mistral,
{
    Prompt {
        system_prompt: get_system_prompt(),
        user_prompt: get_user_prompt(word),
        model: String::from_str(WORD_MODEL),
        provider: ModelProvider::Mistral,
    }
}

/// Whether two texts hold the same characters.
pub fn same_text(a: &str, b: &str) -> (r: bool)
    ensures
        r == (a@ == b@),
{
    let n = a.unicode_len();
    if n != b.unicode_len() {
        return false;
    }
    let mut i: usize = 0;
    while i < n
        invariant
            n == a@.len(),
            n == b@.len(),
            i <= n,
            forall|k: int| 0 <= k < i ==> a@[k] == b@[k],
        decreases n - i,
    {
        if a.get_char(i) != b.get_char(i) {
            return false;
        }
        i = i + 1;
    }
    assert(a@ =~= b@);
    true
}

/// The query value that selects a batch of described words.
pub const BATCH_REQ_TYPE: &'static str = "chatgpt";

/// The query value that selects a single word to describe.
pub const SINGLE_REQ_TYPE: &'static str = "singular_word";

/// What a POST asks for.
#[derive(Clone, Copy, Debug, PartialEq, Eq, Structural)]
pub enum PostWordType {
    /// A batch of words already described, to store.
    ChatGpt,
    /// One word, to describe and store.
    SingularWord,
}

/// A `req_type` that names no kind of request.
#[derive(Clone, Copy, Debug, PartialEq, Eq, Structural)]
pub struct ParseWordTypeError;

impl PostWordType {
    /// Reads a `req_type` query value.
    pub fn parse(s: &str) -> (r: Result<PostWordType, ParseWordTypeError>)
        ensures
            s@ == BATCH_REQ_TYPE@ ==> r == Ok::<PostWordType, ParseWordTypeError>(PostWordType::ChatGpt),
            s@ == SINGLE_REQ_TYPE@ ==> r == Ok::<PostWordType, ParseWordTypeError>(
                PostWordType::SingularWord,
            ),
            s@ != BATCH_REQ_TYPE@ && s@ != SINGLE_REQ_TYPE@ ==> r == Err::<
                PostWordType,
                ParseWordTypeError,
            >(ParseWordTypeError),
    {
        proof {
            reveal_strlit("chatgpt");
            reveal_strlit("singular_word");
            assert(BATCH_REQ_TYPE@.len() != SINGLE_REQ_TYPE@.len());
        }
        if same_text(s, BATCH_REQ_TYPE) {
            Ok(PostWordType::ChatGpt)
        } else if same_text(s, SINGLE_REQ_TYPE) {
            Ok(PostWordType::SingularWord)
        } else {
            Err(ParseWordTypeError)
        }
    }
}

impl core::str::FromStr for PostWordType {
    type Err = ParseWordTypeError;

    fn from_str(s: &str) -> Result<PostWordType, ParseWordTypeError> {
        PostWordType::parse(s)
    }
}

/// How an inbound request is answered before any work is done.
#[derive(Clone, Copy, Debug, PartialEq, Eq, Structural)]
pub enum Route {
    /// A POST of the given kind.
    Post(PostWordType),
    /// Any method but POST: 405.
    MethodNotAllowed,
    /// A POST without a `req_type`, or with one that names nothing: 400.
    InvalidReqType,
}

/// Picks the route of a request from its method and its first `req_type`
/// query value.
pub fn route_request(method: &str, req_type: Option<&str>) -> (r: Route)
    ensures
        method@ != "POST"@ ==> r == Route::MethodNotAllowed,
        method@ == "POST"@ ==> match req_type {
            None => r == Route::InvalidReqType,
            Some(t) => if t@ == BATCH_REQ_TYPE@ {
                r == Route::Post(PostWordType::ChatGpt)
            } else if t@ == SINGLE_REQ_TYPE@ {
                r == Route::Post(PostWordType::SingularWord)
            } else {
                r == Route::InvalidReqType
            },
        },
{
    if !same_text(method, "POST") {
        return Route::MethodNotAllowed;
    }
    match req_type {
        None => Route::InvalidReqType,
        Some(t) => match PostWordType::parse(t) {
            Ok(kind) => Route::Post(kind),
            Err(_) => Route::InvalidReqType,
        },
    }
}

} // verus!
