use lang_crack::{
    extract_content, read_answer, strip_backslashes, AttemptError, ChatAsync, ChatResponse,
    CompletionMode, ModelProvider, Next, Prompt, ResponseChoice, RetryState, Role, SessionError,
    JSON_REPAIR_PREAMBLE, MAX_ATTEMPTS, MISTRAL_API_BASE, RAW_REPAIR_PREAMBLE,
};

fn prompt(provider: ModelProvider) -> Prompt {
    Prompt {
        system_prompt: "Return JSON: {\"word\":string}".to_string(),
        user_prompt: "Word: 猫".to_string(),
        model: "m".to_string(),
        provider,
    }
}

fn session(provider: ModelProvider) -> ChatAsync {
    ChatAsync::new(prompt(provider), Some("SECRET-REDACTED".to_string())).unwrap()
}

fn response(contents: Vec<Option<&str>>) -> ChatResponse {
    ChatResponse {
        choices: contents
            .into_iter()
            .map(|c| ResponseChoice { content: c.map(|s| s.to_string()) })
            .collect(),
    }
}

fn system_text(s: &ChatAsync) -> String {
    s.messages()[0].content.clone()
}

/// Runs the loop on the structured path the way a transport would, decoding
/// each answer as JSON; returns the outcome and how many attempts were made.
fn run_structured(
    s: &mut ChatAsync,
    answers: &[Result<ChatResponse, String>],
    systems_seen: &mut Vec<String>,
) -> (Result<serde_json::Value, SessionError>, usize) {
    let mut state = RetryState::start();
    let mut attempts = 0;
    loop {
        systems_seen.push(system_text(s));
        let sent = answers[attempts].clone();
        attempts += 1;
        let outcome = read_answer(sent, CompletionMode::Structured).and_then(|text| {
            serde_json::from_str::<serde_json::Value>(&text)
                .map_err(|e| AttemptError::Decode { error: e.to_string(), text })
        });
        match s.advance(state, CompletionMode::Structured, outcome) {
            Next::Done(v) => return (Ok(v), attempts),
            Next::Retry(next) => state = next,
            Next::Exhausted(e) => return (Err(e), attempts),
        }
    }
}

#[test]
fn new_builds_two_messages() {
    let s = session(ModelProvider::OpenAi);
    let m = s.messages();
    assert_eq!(m.len(), 2);
    assert_eq!(m[0].role, Role::System);
    assert_eq!(m[0].content, "Return JSON: {\"word\":string}");
    assert_eq!(m[1].role, Role::User);
    assert_eq!(m[1].content, "Word: 猫");
    assert_eq!(s.config().api_key, "SECRET-REDACTED");
    assert_eq!(s.config().api_base, None);
}

#[test]
fn new_uses_mistral_base() {
    let s = session(ModelProvider::Mistral);
    assert_eq!(s.config().api_base.as_deref(), Some(MISTRAL_API_BASE));
    assert_eq!(s.provider(), ModelProvider::Mistral);
}

#[test]
fn new_without_credential_fails() {
    match ChatAsync::new(prompt(ModelProvider::OpenAi), None) {
        Err(SessionError::Configuration { variable }) => assert_eq!(variable, "OPENAI_API_KEY"),
        other => panic!("unexpected {:?}", other),
    }
    match ChatAsync::new(prompt(ModelProvider::Mistral), None) {
        Err(SessionError::Configuration { variable }) => assert_eq!(variable, "MISTRAL_API_KEY"),
        other => panic!("unexpected {:?}", other),
    }
}

#[test]
fn json_flag_follows_provider() {
    let a = session(ModelProvider::OpenAi);
    let b = session(ModelProvider::Mistral);
    for mode in [CompletionMode::Structured, CompletionMode::Raw] {
        let ra = a.build_request(mode);
        let rb = b.build_request(mode);
        assert!(ra.json_object);
        assert!(!rb.json_object);
        assert!(!ra.stream && !rb.stream);
        assert_eq!(ra.model, "m");
        assert_eq!(ra.messages.len(), 2);
        assert_eq!(ra.messages[0].content, rb.messages[0].content);
        assert_eq!(ra.messages[1].content, rb.messages[1].content);
    }
}

#[test]
fn temperature_only_on_raw_path() {
    let s = session(ModelProvider::OpenAi);
    assert_eq!(s.build_request(CompletionMode::Structured).temperature_hundredths, None);
    assert_eq!(s.build_request(CompletionMode::Raw).temperature_hundredths, Some(20));
}

#[test]
fn extract_reports_missing_choice() {
    assert!(matches!(extract_content(&response(vec![])), Err(AttemptError::MissingChoice)));
}

#[test]
fn extract_reports_missing_content() {
    assert!(matches!(
        extract_content(&response(vec![None, Some("later")])),
        Err(AttemptError::MissingContent)
    ));
}

#[test]
fn extract_takes_first_choice() {
    match extract_content(&response(vec![Some("first"), Some("second")])) {
        Ok(t) => assert_eq!(t, "first"),
        other => panic!("unexpected {:?}", other),
    }
}

#[test]
fn strip_removes_every_backslash() {
    assert_eq!(strip_backslashes("{\\\"word\\\":\\\"猫\\\"}"), "{\"word\":\"猫\"}");
    assert_eq!(strip_backslashes("\\\\"), "");
    assert_eq!(strip_backslashes(""), "");
}

#[test]
fn strip_keeps_clean_multibyte_text() {
    let clean = "{\"word\":\"食べる\",\"sentence\":\"私は寿司を食べる。\"}";
    assert_eq!(strip_backslashes(clean), clean);
    let once = strip_backslashes("a\\b\\\\c");
    assert_eq!(once, "abc");
    assert_eq!(strip_backslashes(&once), once);
}

#[test]
fn clean_json_round_trips() {
    let mut map = serde_json::Map::new();
    map.insert("word".to_string(), serde_json::Value::String("猫".to_string()));
    map.insert("is_kanji".to_string(), serde_json::Value::Bool(true));
    map.insert(
        "word_tenses".to_string(),
        serde_json::Value::Array(vec![serde_json::Value::String("ねこ".to_string())]),
    );
    let value = serde_json::Value::Object(map);
    let encoded = serde_json::to_string(&value).unwrap();
    let normalized = strip_backslashes(&encoded);
    assert_eq!(normalized, encoded);
    assert_eq!(strip_backslashes(&normalized), normalized);
    let decoded: serde_json::Value = serde_json::from_str(&normalized).unwrap();
    assert_eq!(decoded, value);
}

#[test]
fn read_answer_paths() {
    match read_answer(Err("timeout".to_string()), CompletionMode::Structured) {
        Err(AttemptError::Request { message }) => assert_eq!(message, "timeout"),
        other => panic!("unexpected {:?}", other),
    }
    let escaped = "{\\\"a\\\":1}";
    match read_answer(Ok(response(vec![Some(escaped)])), CompletionMode::Structured) {
        Ok(t) => assert_eq!(t, "{\"a\":1}"),
        other => panic!("unexpected {:?}", other),
    }
    match read_answer(Ok(response(vec![Some(escaped)])), CompletionMode::Raw) {
        Ok(t) => assert_eq!(t, escaped),
        other => panic!("unexpected {:?}", other),
    }
    assert!(matches!(
        read_answer(Ok(response(vec![])), CompletionMode::Raw),
        Err(AttemptError::MissingChoice)
    ));
}

#[test]
fn invalid_then_valid_json_takes_two_attempts() {
    let mut s = session(ModelProvider::OpenAi);
    let first_system = system_text(&s);
    let answers = vec![
        Ok(response(vec![Some("{word: 猫")])),
        Ok(response(vec![Some("{\"word\":\"猫\"}")])),
    ];
    let mut seen = Vec::new();
    let (result, attempts) = run_structured(&mut s, &answers, &mut seen);
    assert_eq!(attempts, 2);
    let value = result.unwrap();
    assert_eq!(value["word"], "猫");
    assert_eq!(seen[0], first_system);
    assert_eq!(seen[1], format!("{}{}", JSON_REPAIR_PREAMBLE, first_system));
    assert_eq!(s.messages()[1].content, "Word: 猫");
}

#[test]
fn zero_choices_exhaust_after_five_attempts() {
    let mut s = session(ModelProvider::OpenAi);
    let first_system = system_text(&s);
    let answers: Vec<Result<ChatResponse, String>> =
        (0..8).map(|_| Ok(response(vec![]))).collect();
    let mut seen = Vec::new();
    let (result, attempts) = run_structured(&mut s, &answers, &mut seen);
    assert_eq!(attempts, 5);
    assert_eq!(MAX_ATTEMPTS, 5);
    match result {
        Err(SessionError::Exhausted { attempts, last_error }) => {
            assert_eq!(attempts, 5);
            assert!(matches!(last_error, AttemptError::MissingChoice));
        }
        other => panic!("unexpected {:?}", other),
    }
    let repaired = format!("{}{}", JSON_REPAIR_PREAMBLE, first_system);
    assert_eq!(seen[0], first_system);
    for later in &seen[1..] {
        assert_eq!(later, &repaired);
    }
    assert_eq!(system_text(&s), repaired);
}

#[test]
fn success_on_third_attempt_stops_there() {
    let mut s = session(ModelProvider::Mistral);
    let answers = vec![
        Err("connection reset".to_string()),
        Ok(response(vec![None])),
        Ok(response(vec![Some("{\"word\":\"犬\"}")])),
        Ok(response(vec![Some("{\"word\":\"鳥\"}")])),
    ];
    let mut seen = Vec::new();
    let (result, attempts) = run_structured(&mut s, &answers, &mut seen);
    assert_eq!(attempts, 3);
    assert_eq!(result.unwrap()["word"], "犬");
}

#[test]
fn success_on_last_attempt_is_returned() {
    let mut s = session(ModelProvider::OpenAi);
    let mut answers: Vec<Result<ChatResponse, String>> =
        (0..4).map(|_| Ok(response(vec![Some("not json")]))).collect();
    answers.push(Ok(response(vec![Some("{\"word\":\"魚\"}")])));
    let mut seen = Vec::new();
    let (result, attempts) = run_structured(&mut s, &answers, &mut seen);
    assert_eq!(attempts, 5);
    assert_eq!(result.unwrap()["word"], "魚");
}

#[test]
fn raw_path_rewrites_with_its_own_preamble() {
    let mut s = session(ModelProvider::Mistral);
    let first_system = system_text(&s);
    let state = RetryState::start();
    match s.advance::<String>(state, CompletionMode::Raw, Err(AttemptError::MissingContent)) {
        Next::Retry(next) => {
            assert_eq!(next, RetryState { attempt: 1, repaired: true });
            assert_eq!(system_text(&s), format!("{}{}", RAW_REPAIR_PREAMBLE, first_system));
            match s.advance(next, CompletionMode::Raw, Ok("answer".to_string())) {
                Next::Done(v) => assert_eq!(v, "answer"),
                other => panic!("unexpected {:?}", other),
            }
        }
        other => panic!("unexpected {:?}", other),
    }
}

#[test]
fn success_leaves_messages_alone() {
    let mut s = session(ModelProvider::OpenAi);
    let first_system = system_text(&s);
    match s.advance(RetryState::start(), CompletionMode::Structured, Ok(7u32)) {
        Next::Done(v) => assert_eq!(v, 7),
        other => panic!("unexpected {:?}", other),
    }
    assert_eq!(system_text(&s), first_system);
}
