use lang_crack::{
    group_rows, NihongoWordOpenAiRes, NihongoWordOpenAiResTense, NihongoWordReqTenseChatgpt,
    NihongoWordReqWordChatgpt, NihongoWordTense, NihongoWordWithTenses,
};

fn row(id: i64, word: &str, tense: Option<(&str, &str, &str)>) -> NihongoWordWithTenses {
    NihongoWordWithTenses {
        id,
        word: word.to_string(),
        is_kanji: id % 2 == 0,
        definition: format!("definition of {}", word),
        sentence: format!("sentence with {}", word),
        kanji_mnemonic: Some(format!("kanji hint {}", word)),
        spoken_mnemonic: None,
        word_reading: format!("reading {}", word),
        sentence_translation: format!("translation {}", word),
        word_id: tense.map(|_| id),
        tense_word: tense.map(|t| t.0.to_string()),
        tense_sentence: tense.map(|t| t.1.to_string()),
        tense_type: tense.map(|t| t.2.to_string()),
    }
}

#[test]
fn model_answer_becomes_insert() {
    let res = NihongoWordOpenAiRes {
        word: "食べる".to_string(),
        is_kanji: true,
        word_reading: "たべる".to_string(),
        definition: "to eat".to_string(),
        sentence: "寿司を食べる。".to_string(),
        sentence_translation: "I eat sushi.".to_string(),
        kanji_mnemonic: Some("a person eating".to_string()),
        spoken_mnemonic: None,
        word_tenses: vec![
            NihongoWordOpenAiResTense {
                word: "食べた".to_string(),
                sentence: "寿司を食べた。".to_string(),
                tense_type: "past".to_string(),
            },
            NihongoWordOpenAiResTense {
                word: "食べない".to_string(),
                sentence: "寿司を食べない。".to_string(),
                tense_type: "negative".to_string(),
            },
        ],
    };
    let insert = res.clone().into_insert();
    assert_eq!(insert.word, "食べる");
    assert!(insert.is_kanji);
    assert_eq!(insert.word_reading, "たべる");
    assert_eq!(insert.definition, "to eat");
    assert_eq!(insert.sentence, "寿司を食べる。");
    assert_eq!(insert.sentence_translation, "I eat sushi.");
    assert_eq!(insert.kanji_mnemonic.as_deref(), Some("a person eating"));
    assert_eq!(insert.spoken_mnemonic, None);
    assert_eq!(insert.word_tenses.len(), 2);
    assert_eq!(insert.word_tenses[0].word, "食べた");
    assert_eq!(insert.word_tenses[0].tense_type, "past");
    assert_eq!(insert.word_tenses[1].sentence, "寿司を食べない。");
    assert_eq!(insert.word_tenses[1].tense_type, "negative");
}

#[test]
fn batch_word_becomes_insert() {
    let w = NihongoWordReqWordChatgpt {
        word: "猫".to_string(),
        is_kanji: true,
        word_reading: "ねこ".to_string(),
        definition: "cat".to_string(),
        sentence: "猫がいる。".to_string(),
        sentence_translation: "There is a cat.".to_string(),
        kanji_mnemonic: None,
        spoken_mnemonic: Some("neko".to_string()),
        word_tenses: vec![NihongoWordReqTenseChatgpt {
            word: "猫".to_string(),
            sentence: "猫だ。".to_string(),
            tense_type: "plain".to_string(),
        }],
    };
    let insert = w.into_insert();
    assert_eq!(insert.word, "猫");
    assert_eq!(insert.spoken_mnemonic.as_deref(), Some("neko"));
    assert_eq!(insert.word_tenses.len(), 1);
    assert_eq!(insert.word_tenses[0].sentence, "猫だ。");
}

#[test]
fn word_without_tenses_converts_to_empty_list() {
    let res = NihongoWordOpenAiRes { word: "は".to_string(), ..Default::default() };
    let insert = res.into_insert();
    assert_eq!(insert.word, "は");
    assert!(insert.word_tenses.is_empty());
}

#[test]
fn rows_group_by_id_in_first_appearance_order() {
    let rows = vec![
        row(2, "食べる", Some(("食べた", "昨日食べた。", "past"))),
        row(1, "猫", None),
        row(2, "食べる", Some(("食べない", "食べない。", "negative"))),
    ];
    let groups = group_rows(rows);
    assert_eq!(groups.len(), 2);
    assert_eq!(groups[0].id, 2);
    assert_eq!(groups[0].word, "食べる");
    assert!(groups[0].is_kanji);
    assert_eq!(groups[0].word_reading, "reading 食べる");
    assert_eq!(groups[0].kanji_mnemonic.as_deref(), Some("kanji hint 食べる"));
    assert_eq!(
        groups[0].tenses,
        vec![
            NihongoWordTense {
                tense_word: Some("食べた".to_string()),
                tense_sentence: Some("昨日食べた。".to_string()),
                tense_type: Some("past".to_string()),
            },
            NihongoWordTense {
                tense_word: Some("食べない".to_string()),
                tense_sentence: Some("食べない。".to_string()),
                tense_type: Some("negative".to_string()),
            },
        ]
    );
    assert_eq!(groups[1].id, 1);
    assert_eq!(groups[1].word, "猫");
    assert_eq!(
        groups[1].tenses,
        vec![NihongoWordTense { tense_word: None, tense_sentence: None, tense_type: None }]
    );
}

#[test]
fn no_rows_no_groups() {
    assert!(group_rows(vec![]).is_empty());
}
