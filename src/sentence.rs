use vstd::prelude::*;
use vstd::string::*;

use crate::error::{ErrorKind, UdpipeError};
use crate::word::Word;

verus! {

/// The fields of one word as the engine hands them over, each string `None`
/// where the engine gave a null pointer or text that is not valid UTF-8.
#[derive(Debug, Clone)]
pub struct RawWord {
    /// The surface form.
    pub form: Option<String>,
    /// The lemma.
    pub lemma: Option<String>,
    /// Universal POS tag.
    pub upostag: Option<String>,
    /// Language-specific POS tag.
    pub xpostag: Option<String>,
    /// Morphological features.
    pub feats: Option<String>,
    /// Dependency relation to the head.
    pub deprel: Option<String>,
    /// Enhanced dependency graph.
    pub deps: Option<String>,
    /// Miscellaneous annotations.
    pub misc: Option<String>,
    /// 1-based index of the word within its sentence.
    pub id: i32,
    /// Index of the head word (0 = root).
    pub head: i32,
    /// 0-based index of the sentence.
    pub sentence_id: i32,
    /// The child-index array, `None` where the engine gave a null pointer.
    pub children: Option<Vec<i32>>,
}

/// A multiword token as the engine hands it over.
#[derive(Debug, Clone)]
pub struct RawMultiwordToken {
    /// The surface form.
    pub form: Option<String>,
    /// Miscellaneous annotations.
    pub misc: Option<String>,
    /// Id of the first word it spans.
    pub id_first: i32,
    /// Id of the last word it spans.
    pub id_last: i32,
}

/// A sentence as the engine hands it over, before it is checked.
#[derive(Debug, Clone)]
pub struct RawSentence {
    /// The words, in the engine's order.
    pub words: Vec<RawWord>,
    /// The multiword tokens, in the engine's order.
    pub multiword_tokens: Vec<RawMultiwordToken>,
    /// The comment lines, in the engine's order.
    pub comments: Vec<Option<String>>,
}

/// A surface token that spans several words, such as a contraction. The
/// words it spans run from `id_first` to `id_last`, and `id_first <= id_last`.
#[derive(Debug)]
pub struct MultiwordToken {
    form: String,
    misc: String,
    id_first: i32,
    id_last: i32,
}

/// One parsed sentence: its words in order, with the ids 1, 2, ..., its
/// multiword tokens and its comment lines.
#[derive(Debug)]
pub struct Sentence {
    words: Vec<Word>,
    multiword_tokens: Vec<MultiwordToken>,
    comments: Vec<String>,
}

impl MultiwordToken {
    #[verifier::type_invariant]
    spec fn range_ordered(self) -> bool {
        self.id_first <= self.id_last
    }

    /// The surface form of the token.
    pub closed spec fn spec_form(self) -> Seq<char> {
        self.form@
    }

    /// Its miscellaneous annotations.
    pub closed spec fn spec_misc(self) -> Seq<char> {
        self.misc@
    }

    /// Id of the first word it spans.
    pub closed spec fn spec_id_first(self) -> i32 {
        self.id_first
    }

    /// Id of the last word it spans.
    pub closed spec fn spec_id_last(self) -> i32 {
        self.id_last
    }

    /// The surface form of the token.
    pub fn form(&self) -> (r: &str)
        ensures
            r@ == self.spec_form(),
    {
        self.form.as_str()
    }

    /// Its miscellaneous annotations.
    pub fn misc(&self) -> (r: &str)
        ensures
            r@ == self.spec_misc(),
    {
        self.misc.as_str()
    }

    /// Id of the first word it spans; never above the id of the last.
    pub fn id_first(&self) -> (r: i32)
        ensures
            r == self.spec_id_first(),
            r <= self.spec_id_last(),
    {
        proof {
            use_type_invariant(self);
        }
        self.id_first
    }

    /// Id of the last word it spans; never below the id of the first.
    pub fn id_last(&self) -> (r: i32)
        ensures
            r == self.spec_id_last(),
            self.spec_id_first() <= r,
    {
        proof {
            use_type_invariant(self);
        }
        self.id_last
    }

    /// The token for the given fields, or `None` where the range is inverted.
    pub fn new(form: String, misc: String, id_first: i32, id_last: i32) -> (r: Option<Self>)
        ensures
            r is Some <==> id_first <= id_last,
            r matches Some(t) ==> t.spec_form() == form@ && t.spec_misc() == misc@
                && t.spec_id_first() == id_first && t.spec_id_last() == id_last,
    {
        if id_first <= id_last {
            Some(MultiwordToken { form, misc, id_first, id_last })
        } else {
            None
        }
    }
}

/// The word ids of a list of words.
pub open spec fn word_ids(words: Seq<Word>) -> Seq<i32> {
    words.map_values(|w: Word| w.id)
}

impl Sentence {
    #[verifier::type_invariant]
    spec fn numbered(self) -> bool {
        ids_sequential(word_ids(self.words@))
    }

    /// The words of the sentence, in order.
    pub closed spec fn spec_words(self) -> Seq<Word> {
        self.words@
    }

    /// Its multiword tokens, in order.
    pub closed spec fn spec_multiword_tokens(self) -> Seq<MultiwordToken> {
        self.multiword_tokens@
    }

    /// Its comment lines, in order.
    pub closed spec fn spec_comments(self) -> Seq<String> {
        self.comments@
    }

    /// The words of the sentence, in order: the word at position `i` has the
    /// id `i + 1`, so the ids run from 1 to the number of words, each one more
    /// than the one before.
    pub fn words(&self) -> (r: &Vec<Word>)
        ensures
            r@ == self.spec_words(),
            forall|i: int| 0 <= i < r@.len() ==> #[trigger] r@[i].id == i + 1,
            forall|i: int| 0 <= i < r@.len() ==> 1 <= #[trigger] r@[i].id <= r@.len(),
            forall|i: int| 0 < i < r@.len() ==> #[trigger] r@[i].id == r@[i - 1].id + 1,
    {
        proof {
            use_type_invariant(self);
            assert forall|i: int| 0 <= i < self.words@.len() implies #[trigger] self.words@[i].id
                == i + 1 by {
                assert(word_ids(self.words@)[i] == i + 1);
            }
        }
        &self.words
    }

    /// Its multiword tokens, in order.
    pub fn multiword_tokens(&self) -> (r: &Vec<MultiwordToken>)
        ensures
            r@ == self.spec_multiword_tokens(),
    {
        &self.multiword_tokens
    }

    /// Its comment lines, in order.
    pub fn comments(&self) -> (r: &Vec<String>)
        ensures
            r@ == self.spec_comments(),
    {
        &self.comments
    }
}

/// The text of an optional string: empty where there is none.
pub open spec fn text_or_empty(s: Option<String>) -> Seq<char> {
    match s {
        Some(t) => t@,
        None => Seq::empty(),
    }
}

/// The child ids of a raw word: empty where the engine gave none.
pub open spec fn ids_or_empty(v: Option<Vec<i32>>) -> Seq<i32> {
    match v {
        Some(ids) => ids@,
        None => Seq::empty(),
    }
}

/// How many elements of a child-index array of the engine to copy: none where
/// the array is missing or its count is not positive.
pub open spec fn child_array_len_spec(present: bool, count: i32) -> int {
    if present && count > 0 {
        count as int
    } else {
        0
    }
}

/// `w` is the owned copy of the raw word `r`.
pub open spec fn word_from_raw(r: RawWord, w: Word) -> bool {
    &&& w.form@ == text_or_empty(r.form)
    &&& w.lemma@ == text_or_empty(r.lemma)
    &&& w.upostag@ == text_or_empty(r.upostag)
    &&& w.xpostag@ == text_or_empty(r.xpostag)
    &&& w.feats@ == text_or_empty(r.feats)
    &&& w.deprel@ == text_or_empty(r.deprel)
    &&& w.deps@ == text_or_empty(r.deps)
    &&& w.misc@ == text_or_empty(r.misc)
    &&& w.id == r.id
    &&& w.head == r.head
    &&& w.sentence_id == r.sentence_id
    &&& w.children@ == ids_or_empty(r.children)
}

/// The words of a sentence carry the ids 1, 2, ..., in order.
pub open spec fn ids_sequential(ids: Seq<i32>) -> bool {
    forall|i: int| 0 <= i < ids.len() ==> #[trigger] ids[i] == i + 1
}

/// The word ids of a raw sentence.
pub open spec fn raw_word_ids(r: RawSentence) -> Seq<i32> {
    r.words@.map_values(|w: RawWord| w.id)
}

/// Every multiword token of a raw sentence spans an ordered range.
pub open spec fn raw_ranges_ordered(r: RawSentence) -> bool {
    forall|i: int|
        0 <= i < r.multiword_tokens@.len() ==> #[trigger] r.multiword_tokens@[i].id_first
            <= r.multiword_tokens@[i].id_last
}

/// The raw sentence meets the invariants of a [`Sentence`].
pub open spec fn raw_well_formed(r: RawSentence) -> bool {
    ids_sequential(raw_word_ids(r)) && raw_ranges_ordered(r)
}

/// `t` is the owned copy of the raw multiword token `r`.
pub open spec fn token_from_raw(r: RawMultiwordToken, t: MultiwordToken) -> bool {
    &&& t.spec_form() == text_or_empty(r.form)
    &&& t.spec_misc() == text_or_empty(r.misc)
    &&& t.spec_id_first() == r.id_first
    &&& t.spec_id_last() == r.id_last
}

/// `s` is the owned copy of the raw sentence `r`.
pub open spec fn sentence_from_raw(r: RawSentence, s: Sentence) -> bool {
    &&& s.spec_words().len() == r.words@.len()
    &&& forall|i: int|
        0 <= i < r.words@.len() ==> word_from_raw(#[trigger] r.words@[i], s.spec_words()[i])
    &&& s.spec_multiword_tokens().len() == r.multiword_tokens@.len()
    &&& forall|i: int|
        0 <= i < r.multiword_tokens@.len() ==> token_from_raw(
            #[trigger] r.multiword_tokens@[i],
            s.spec_multiword_tokens()[i],
        )
    &&& s.spec_comments().len() == r.comments@.len()
    &&& forall|i: int|
        0 <= i < r.comments@.len() ==> #[trigger] s.spec_comments()[i]@ == text_or_empty(
            r.comments@[i],
        )
}

/// How many elements of a child-index array to copy: none where the array is
/// missing (`present` is false) or `count` is not positive.
pub fn child_array_len(present: bool, count: i32) -> (r: usize)
    ensures
        r as int == child_array_len_spec(present, count),
{
    if present && count > 0 {
        count as usize
    } else {
        0
    }
}

/// Owned text of an optional string, empty where there is none.
pub fn owned_text(s: &Option<String>) -> (r: String)
    ensures
        r@ == text_or_empty(*s),
{
    match s {
        Some(t) => t.clone(),
        None => String::new(),
    }
}

/// Owned copy of an optional id array, empty where there is none.
pub fn owned_ids(v: &Option<Vec<i32>>) -> (r: Vec<i32>)
    ensures
        r@ == ids_or_empty(*v),
{
    match v {
        Some(ids) => {
            let c = ids.clone();
            assert(c@ =~= ids@);
            c
        },
        None => Vec::new(),
    }
}

impl Word {
    /// The owned word for the fields that the engine handed over.
    pub fn from_raw(r: &RawWord) -> (w: Word)
        ensures
            word_from_raw(*r, w),
    {
        Word {
            form: owned_text(&r.form),
            lemma: owned_text(&r.lemma),
            upostag: owned_text(&r.upostag),
            xpostag: owned_text(&r.xpostag),
            feats: owned_text(&r.feats),
            deprel: owned_text(&r.deprel),
            deps: owned_text(&r.deps),
            misc: owned_text(&r.misc),
            id: r.id,
            head: r.head,
            sentence_id: r.sentence_id,
            children: owned_ids(&r.children),
        }
    }
}

/// Owned words for a list of raw words, in order.
pub fn words_from_raw(raw: &Vec<RawWord>) -> (r: Vec<Word>)
    ensures
        r@.len() == raw@.len(),
        forall|i: int| 0 <= i < raw@.len() ==> word_from_raw(#[trigger] raw@[i], r@[i]),
{
    let mut out: Vec<Word> = Vec::new();
    let mut i: usize = 0;
    let n = raw.len();
    while i < n
        invariant
            n == raw@.len(),
            i <= n,
            out@.len() == i,
            forall|j: int| 0 <= j < i ==> word_from_raw(#[trigger] raw@[j], out@[j]),
        decreases n - i,
    {
        let w = Word::from_raw(&raw[i]);
        out.push(w);
        i = i + 1;
    }
    out
}

impl Sentence {
    /// The owned sentence for what the engine handed over. Fails with
    /// [`ErrorKind::ParseFailed`] where the word ids do not run 1, 2, ... in
    /// order, or a multiword token's range is inverted.
    pub fn from_raw(raw: &RawSentence) -> (r: Result<Sentence, UdpipeError>)
        ensures
            r is Ok <==> raw_well_formed(*raw),
            r matches Ok(s) ==> sentence_from_raw(*raw, s),
            r matches Err(e) ==> e.kind == ErrorKind::ParseFailed,
    {
        let n = raw.words.len();
        let mut i: usize = 0;
        while i < n
            invariant
                n == raw.words@.len(),
                i <= n,
                forall|j: int| 0 <= j < i ==> #[trigger] raw_word_ids(*raw)[j] == j + 1,
            decreases n - i,
        {
            let id = raw.words[i].id;
            if id <= 0 || (id - 1) as usize != i {
                assert(raw_word_ids(*raw)[i as int] != i + 1);
                return Err(
                    UdpipeError::with_kind(
                        ErrorKind::ParseFailed,
                        "engine returned words out of order",
                    ),
                );
            }
            i = i + 1;
        }
        assert(ids_sequential(raw_word_ids(*raw)));
        let words = words_from_raw(&raw.words);
        assert(word_ids(words@) =~= raw_word_ids(*raw));
        let m = raw.multiword_tokens.len();
        let mut tokens: Vec<MultiwordToken> = Vec::new();
        let mut k: usize = 0;
        while k < m
            invariant
                m == raw.multiword_tokens@.len(),
                k <= m,
                tokens@.len() == k,
                forall|j: int|
                    0 <= j < k ==> token_from_raw(
                        #[trigger] raw.multiword_tokens@[j],
                        tokens@[j],
                    ),
                forall|j: int|
                    0 <= j < k ==> #[trigger] raw.multiword_tokens@[j].id_first
                        <= raw.multiword_tokens@[j].id_last,
            decreases m - k,
        {
            let t = &raw.multiword_tokens[k];
            match MultiwordToken::new(owned_text(&t.form), owned_text(&t.misc), t.id_first, t.id_last) {
                Some(token) => tokens.push(token),
                None => {
                    return Err(
                        UdpipeError::with_kind(
                            ErrorKind::ParseFailed,
                            "engine returned a multiword token with an inverted range",
                        ),
                    );
                },
            }
            k = k + 1;
        }
        let c = raw.comments.len();
        let mut comments: Vec<String> = Vec::new();
        let mut l: usize = 0;
        while l < c
            invariant
                c == raw.comments@.len(),
                l <= c,
                comments@.len() == l,
                forall|j: int|
                    0 <= j < l ==> #[trigger] comments@[j]@ == text_or_empty(raw.comments@[j]),
            decreases c - l,
        {
            comments.push(owned_text(&raw.comments[l]));
            l = l + 1;
        }
        Ok(Sentence { words, multiword_tokens: tokens, comments })
    }
}

} // verus!
