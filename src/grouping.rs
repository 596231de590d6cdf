use vstd::prelude::*;

verus! {

/// One row of the join of stored words with their tenses: the word's fields,
/// then those of one tense, all absent for a word without tenses.
#[derive(Debug, Clone, PartialEq)]
pub struct NihongoWordWithTenses {
    pub id: i64,
    pub word: String,
    pub is_kanji: bool,
    pub definition: String,
    pub sentence: String,
    pub kanji_mnemonic: Option<String>,
    pub spoken_mnemonic: Option<String>,
    pub word_reading: String,
    pub sentence_translation: String,
    pub word_id: Option<i64>,
    pub tense_word: Option<String>,
    pub tense_sentence: Option<String>,
    pub tense_type: Option<String>,
}

/// A stored word with its stored tenses.
#[derive(Debug, Clone, PartialEq)]
pub struct NihongoWordWithTensesStructured {
    pub id: i64,
    pub word: String,
    pub definition: String,
    pub sentence: String,
    pub kanji_mnemonic: Option<String>,
    pub spoken_mnemonic: Option<String>,
    pub is_processed: bool,
    pub word_tenses: Vec<NihongoWordWithTensesStructuredTenses>,
    /// When the word was stored, in seconds since the Unix epoch (UTC).
    pub created_at: i64,
}

/// A stored tense of a stored word.
#[derive(Debug, Clone, PartialEq)]
pub struct NihongoWordWithTensesStructuredTenses {
    pub id: i64,
    pub word_id: i64,
    pub word: String,
    pub sentence: String,
    pub tense_type: String,
    /// When the tense was stored, in seconds since the Unix epoch (UTC).
    pub created_at: i64,
}

/// The tense part of a row.
#[derive(Debug, Clone, PartialEq)]
pub struct NihongoWordTense {
    pub tense_word: Option<String>,
    pub tense_sentence: Option<String>,
    pub tense_type: Option<String>,
}

/// A stored word with all of its tenses.
#[derive(Debug, Clone, PartialEq)]
pub struct NihongoWordsGrouped {
    pub id: i64,
    pub word: String,
    pub is_kanji: bool,
    pub definition: String,
    pub sentence: String,
    pub kanji_mnemonic: Option<String>,
    pub spoken_mnemonic: Option<String>,
    pub word_reading: String,
    pub sentence_translation: String,
    pub tenses: Vec<NihongoWordTense>,
}

/// The tense part of a row.
pub open spec fn tense_of_row(r: NihongoWordWithTenses) -> NihongoWordTense {
    NihongoWordTense {
        tense_word: r.tense_word,
        tense_sentence: r.tense_sentence,
        tense_type: r.tense_type,
    }
}

/// The rows of the word `id`, in order.
pub open spec fn rows_with_id(rows: Seq<NihongoWordWithTenses>, id: i64) -> Seq<NihongoWordWithTenses> {
    rows.filter(|r: NihongoWordWithTenses| r.id == id)
}

/// The tenses of the word `id`, one for each of its rows, in order.
pub open spec fn tenses_with_id(rows: Seq<NihongoWordWithTenses>, id: i64) -> Seq<NihongoWordTense> {
    rows_with_id(rows, id).map_values(|r: NihongoWordWithTenses| tense_of_row(r))
}

/// The indices of the rows whose id no earlier row has, in order.
pub open spec fn first_occurrences(rows: Seq<NihongoWordWithTenses>) -> Seq<int>
    decreases rows.len(),
{
    if rows.len() == 0 {
        Seq::empty()
    } else {
        let earlier = first_occurrences(rows.drop_last());
        if exists|k: int| 0 <= k < rows.len() - 1 && rows[k].id == rows.last().id {
            earlier
        } else {
            earlier.push(rows.len() - 1)
        }
    }
}

/// `g` is the word of row `k`: that row's word fields, and the tenses of every
/// row with its id.
pub open spec fn is_group_of(g: NihongoWordsGrouped, rows: Seq<NihongoWordWithTenses>, k: int) -> bool {
    let r = rows[k];
    &&& g.id == r.id
    &&& g.word == r.word
    &&& g.is_kanji == r.is_kanji
    &&& g.definition == r.definition
    &&& g.sentence == r.sentence
    &&& g.kanji_mnemonic == r.kanji_mnemonic
    &&& g.spoken_mnemonic == r.spoken_mnemonic
    &&& g.word_reading == r.word_reading
    &&& g.sentence_translation == r.sentence_translation
    &&& g.tenses@ == tenses_with_id(rows, r.id)
}

proof fn lemma_tenses_with_id_push(rows: Seq<NihongoWordWithTenses>, r: NihongoWordWithTenses, id: i64)
    ensures
        tenses_with_id(rows.push(r), id) == if r.id == id {
            tenses_with_id(rows, id).push(tense_of_row(r))
        } else {
            tenses_with_id(rows, id)
        },
{
    reveal(Seq::filter);
    assert(rows.push(r).drop_last() =~= rows);
    if r.id == id {
        assert(tenses_with_id(rows.push(r), id) =~= tenses_with_id(rows, id).push(tense_of_row(r)));
    }
}

fn copy_text(o: &Option<String>) -> (r: Option<String>)
    ensures
        r == *o,
{
    match o {
        Some(s) => Some(s.clone()),
        None => None,
    }
}

fn first_row_indices(rows: &Vec<NihongoWordWithTenses>) -> (r: Vec<usize>)
    ensures
        r@.map_values(|i: usize| i as int) == first_occurrences(rows@),
        forall|m: int| 0 <= m < r@.len() ==> r@[m] < rows@.len(),
{
    let mut firsts: Vec<usize> = Vec::new();
    let mut k: usize = 0;
    while k < rows.len()
        invariant
            k <= rows.len(),
            firsts@.map_values(|i: usize| i as int) == first_occurrences(rows@.take(k as int)),
            forall|m: int| 0 <= m < firsts@.len() ==> firsts@[m] < k,
        decreases rows.len() - k,
    {
        let id = rows[k].id;
        let mut seen = false;
        let mut j: usize = 0;
        while j < k
            invariant
                j <= k < rows.len(),
                id == rows@[k as int].id,
                seen <==> exists|m: int| 0 <= m < j && rows@[m].id == id,
            decreases k - j,
        {
            if rows[j].id == id {
                seen = true;
            }
            j = j + 1;
        }
        proof {
            let t = rows@.take(k + 1);
            assert(t.drop_last() =~= rows@.take(k as int));
            assert(t.last() == rows@[k as int]);
            assert(seen <==> exists|m: int| 0 <= m < t.len() - 1 && t[m].id == t.last().id) by {
                if seen {
                    let m = choose|m: int| 0 <= m < k && rows@[m].id == id;
                    assert(t[m].id == t.last().id);
                }
            }
        }
        if !seen {
            firsts.push(k);
            assert(firsts@.map_values(|i: usize| i as int) =~= first_occurrences(rows@.take(k as int)).push(k as int));
        }
        k = k + 1;
    }
    assert(rows@.take(rows.len() as int) =~= rows@);
    firsts
}

fn build_group(rows: &Vec<NihongoWordWithTenses>, first: usize) -> (g: NihongoWordsGrouped)
    requires
        first < rows.len(),
    ensures
        is_group_of(g, rows@, first as int),
{
    let head = &rows[first];
    let id = head.id;
    let mut tenses: Vec<NihongoWordTense> = Vec::new();
    let mut j: usize = 0;
    while j < rows.len()
        invariant
            j <= rows.len(),
            tenses@ == tenses_with_id(rows@.take(j as int), id),
        decreases rows.len() - j,
    {
        proof {
            assert(rows@.take(j + 1) =~= rows@.take(j as int).push(rows@[j as int]));
            lemma_tenses_with_id_push(rows@.take(j as int), rows@[j as int], id);
        }
        let row = &rows[j];
        if row.id == id {
            tenses.push(
                NihongoWordTense {
                    tense_word: copy_text(&row.tense_word),
                    tense_sentence: copy_text(&row.tense_sentence),
                    tense_type: copy_text(&row.tense_type),
                },
            );
        }
        j = j + 1;
    }
    assert(rows@.take(rows.len() as int) =~= rows@);
    NihongoWordsGrouped {
        id,
        word: head.word.clone(),
        is_kanji: head.is_kanji,
        definition: head.definition.clone(),
        sentence: head.sentence.clone(),
        kanji_mnemonic: copy_text(&head.kanji_mnemonic),
        spoken_mnemonic: copy_text(&head.spoken_mnemonic),
        word_reading: head.word_reading.clone(),
        sentence_translation: head.sentence_translation.clone(),
        tenses,
    }
}

/// Gathers the rows of each word into one record: one record for each id, in
/// the order in which ids first appear, holding the fields of the word's first
/// row and one tense for each of its rows, in row order.
pub fn group_rows(words: Vec<NihongoWordWithTenses>) -> (r: Vec<NihongoWordsGrouped>)
    ensures
        r@.len() == first_occurrences(words@).len(),
        forall|i: int|
            0 <= i < r@.len() ==> is_group_of(#[trigger] r@[i], words@, first_occurrences(words@)[i]),
{
    let firsts = first_row_indices(&words);
    let ghost firsts_int = firsts@.map_values(|i: usize| i as int);
    let mut groups: Vec<NihongoWordsGrouped> = Vec::new();
    let mut i: usize = 0;
    while i < firsts.len()
        invariant
            i <= firsts@.len(),
            firsts_int == first_occurrences(words@),
            firsts_int == firsts@.map_values(|i: usize| i as int),
            groups@.len() == i,
            forall|m: int| 0 <= m < i ==> is_group_of(#[trigger] groups@[m], words@, firsts_int[m]),
            forall|m: int| 0 <= m < firsts@.len() ==> firsts@[m] < words@.len(),
        decreases firsts@.len() - i,
    {
        groups.push(build_group(&words, firsts[i]));
        assert(firsts_int[i as int] == firsts@[i as int] as int);
        i = i + 1;
    }
    groups
}

} // verus!
