use vstd::prelude::*;
use crate::chat::{AttemptError, CompletionMode};

verus! {

/// One choice of a provider's response.
#[derive(Clone, Debug)]
pub struct ResponseChoice {
    /// The text of the choice's message; `None` where the backend answered
    /// with something else (a tool call, an empty message).
    pub content: Option<String>,
}

/// A provider's answer to a chat request, as far as a session reads it.
#[derive(Clone, Debug)]
pub struct ChatResponse {
    pub choices: Vec<ResponseChoice>,
}

/// The text left once every backslash is taken out.
pub open spec fn without_backslashes(s: Seq<char>) -> Seq<char> {
    s.filter(|c: char| c != '\\')
}

proof fn lemma_without_backslashes_push(s: Seq<char>, c: char)
    ensures
        without_backslashes(s.push(c)) == if c == '\\' {
            without_backslashes(s)
        } else {
            without_backslashes(s).push(c)
        },
{
    reveal(Seq::filter);
    assert(s.push(c).drop_last() =~= s);
}

/// Taking backslashes out twice is taking them out once.
pub proof fn lemma_normalize_idempotent(s: Seq<char>)
    ensures
        without_backslashes(without_backslashes(s)) == without_backslashes(s),
    decreases s.len(),
{
    if s.len() > 0 {
        let t = s.drop_last();
        let c = s.last();
        assert(s =~= t.push(c));
        lemma_normalize_idempotent(t);
        lemma_without_backslashes_push(t, c);
        if c != '\\' {
            lemma_without_backslashes_push(without_backslashes(t), c);
        }
    } else {
        reveal(Seq::filter);
    }
}

/// Text without a backslash comes out of normalisation unchanged.
pub proof fn lemma_normalize_keeps_clean_text(s: Seq<char>)
    requires
        !s.contains('\\'),
    ensures
        without_backslashes(s) == s,
    decreases s.len(),
{
    if s.len() > 0 {
        let t = s.drop_last();
        let c = s.last();
        assert(s =~= t.push(c));
        assert(!t.contains('\\')) by {
            if t.contains('\\') {
                let i = choose|i: int| 0 <= i < t.len() && t[i] == '\\';
                assert(s[i] == '\\');
            }
        }
        lemma_normalize_keeps_clean_text(t);
        lemma_without_backslashes_push(t, c);
        assert(s[s.len() - 1] == c);
    } else {
        reveal(Seq::filter);
    }
}

/// Relies on `String::push`: appends one character.
#[verifier::external_body]
fn push_char(s: &mut String, c: char)
    ensures
        final(s)@ == old(s)@.push(c),
{
    s.push(c);
}

/// Takes every backslash out of a provider's answer. Backends sometimes escape
/// quotes inside an otherwise valid JSON payload; the shapes decoded here hold
/// no literal backslash, so none is kept.
pub fn strip_backslashes(s: &str) -> (r: String)
    ensures
        r@ == without_backslashes(s@),
{
    let mut out = String::new();
    let n = s.unicode_len();
    let mut i: usize = 0;
    while i < n
        invariant
            n == s@.len(),
            i <= n,
            out@ == without_backslashes(s@.take(i as int)),
        decreases n - i,
    {
        let c = s.get_char(i);
        proof {
            assert(s@.take(i + 1) =~= s@.take(i as int).push(c));
            lemma_without_backslashes_push(s@.take(i as int), c);
        }
        if c != '\\' {
            push_char(&mut out, c);
        }
        i = i + 1;
    }
    assert(s@.take(n as int) =~= s@);
    out
}

/// Takes the text of the first choice: `MissingChoice` where there is no
/// choice, `MissingContent` where the first one holds no text.
pub fn extract_content(response: &ChatResponse) -> (r: Result<String, AttemptError>)
    ensures
        response.choices@.len() == 0 ==> r == Err::<String, AttemptError>(
            AttemptError::MissingChoice,
        ),
        response.choices@.len() > 0 ==> match response.choices@[0].content {
            None => r == Err::<String, AttemptError>(AttemptError::MissingContent),
            Some(c) => r is Ok && r->Ok_0@ == c@,
        },
{
    if response.choices.len() == 0 {
        return Err(AttemptError::MissingChoice);
    }
    match &response.choices[0].content {
        None => Err(AttemptError::MissingContent),
        Some(c) => Ok(c.clone()),
    }
}

/// The text an attempt hands on, given what the transport returned (its error
/// message where sending failed): the first choice's text, with backslashes
/// taken out on the structured path and verbatim on the raw path.
pub fn read_answer(sent: Result<ChatResponse, String>, mode: CompletionMode) -> (r: Result<
    String,
    AttemptError,
>)
    ensures
        match sent {
            Err(message) => r == Err::<String, AttemptError>(AttemptError::Request { message }),
            Ok(response) => if response.choices@.len() == 0 {
                r == Err::<String, AttemptError>(AttemptError::MissingChoice)
            } else {
                match response.choices@[0].content {
                    None => r == Err::<String, AttemptError>(AttemptError::MissingContent),
                    Some(c) => r is Ok && r->Ok_0@ == match mode {
                        CompletionMode::Structured => without_backslashes(c@),
                        CompletionMode::Raw => c@,
                    },
                }
            },
        },
{
    match sent {
        Err(message) => Err(AttemptError::Request { message }),
        Ok(response) => match extract_content(&response) {
            Err(e) => Err(e),
            Ok(text) => match mode {
                CompletionMode::Structured => Ok(strip_backslashes(text.as_str())),
                CompletionMode::Raw => Ok(text),
            },
        },
    }
}

} // verus!
