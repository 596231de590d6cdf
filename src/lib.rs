//! The structured-completion core of a Japanese vocabulary tool: prompts and
//! provider profiles, a chat session whose retry-and-repair loop is a verified
//! state machine, response extraction and normalisation, and the word records
//! that flow from a decoded answer into storage and flashcards.

mod answer;
pub mod bulk;
mod cards;
mod chat;
mod grouping;
mod prompt;
mod prompts;
mod retry;
mod words;

pub use answer::{
    extract_content, lemma_normalize_idempotent, lemma_normalize_keeps_clean_text, read_answer,
    strip_backslashes, without_backslashes, ChatResponse, ResponseChoice,
};
pub use cards::{
    anki_note, audio_file_name, audio_file_name_spec, debug_quoted, format_tenses, join_tense_line,
    joined_tense_line, save_file,
    sound_reference, tense_line, tenses_text, text_or_empty, AnkiNote, AudioFile, ANKI_MEDIA_DIR,
    CARD_TAG, DECK_FORMAT, DECK_NAME, KANJI_FALSE, KANJI_TRUE, SENTENCE_CLIP, VOICE_ID, WORD_CLIP,
};
pub use chat::{
    initial_messages, next_step, repair_preamble, repaired_system, request_for, session_after,
    session_after_failure, AttemptError, ChatAsync, ChatMessage, ChatRequest, CompletionMode, Next,
    RequestView, RetryState, Role, SessionError, SessionView, JSON_REPAIR_PREAMBLE, MAX_ATTEMPTS,
    RAW_REPAIR_PREAMBLE, RAW_TEMPERATURE_HUNDREDTHS,
};
pub use grouping::{
    first_occurrences, group_rows, is_group_of, rows_with_id, tense_of_row, tenses_with_id,
    NihongoWordTense, NihongoWordWithTenses, NihongoWordWithTensesStructured,
    NihongoWordWithTensesStructuredTenses, NihongoWordsGrouped,
};
pub use prompt::{ClientConfig, ModelProvider, Prompt, MISTRAL_API_BASE, MISTRAL_KEY_VAR, OPENAI_KEY_VAR};
pub use prompts::{
    get_system_prompt, get_user_prompt, route_request, same_text, word_prompt, ParseWordTypeError,
    PostWordType, Route, BATCH_REQ_TYPE, SINGLE_REQ_TYPE, USER_PROMPT_PREFIX, USER_PROMPT_SUFFIX, WORD_MODEL,
    WORD_SYSTEM_PROMPT,
};
pub use retry::{
    initial_state, lemma_always_failing, lemma_json_flag_follows_provider,
    lemma_malformed_response_is_retried, lemma_repair_changes_system, lemma_succeeds_on_attempt,
    run_loop,
};
pub use words::{
    tense_insert, NihongoWordInsert, NihongoWordOpenAiRes, NihongoWordOpenAiResTense,
    NihongoWordReq, NihongoWordReqChatgpt, NihongoWordReqTenseChatgpt, NihongoWordReqWordChatgpt,
    NihongoWordTenseInsert,
};
