use vstd::prelude::*;
use vstd::string::*;

use crate::text::{contains_seq, contains_str, str_eq};

verus! {

/// One word of a parsed sentence, with its Universal Dependencies annotations.
#[derive(Debug, Clone, PartialEq, Eq, Hash)]
pub struct Word {
    /// The surface form (actual text).
    pub form: String,
    /// The lemma (dictionary form).
    pub lemma: String,
    /// Universal POS tag (NOUN, VERB, ADJ, etc.).
    pub upostag: String,
    /// Language-specific POS tag.
    pub xpostag: String,
    /// Morphological features (e.g., "VerbForm=Inf|Mood=Imp").
    pub feats: String,
    /// Dependency relation to head (root, nsubj, obj, etc.).
    pub deprel: String,
    /// Enhanced dependency graph, as `head:deprel` pairs.
    pub deps: String,
    /// Miscellaneous annotations (e.g., "SpaceAfter=No").
    pub misc: String,
    /// 1-based index of this word within its sentence.
    pub id: i32,
    /// Index of the head word (0 = root).
    pub head: i32,
    /// 0-based index of the sentence this word belongs to.
    pub sentence_id: i32,
    /// Identifiers of the words whose head is this word, in order.
    pub children: Vec<i32>,
}

/// End of the `|`-separated segment of `s` that starts at `i`: the position of
/// the next `|` at or after `i`, or the length of `s` when none follows.
pub open spec fn segment_end(s: Seq<char>, i: int) -> int
    decreases s.len() - i,
{
    if i >= s.len() {
        s.len() as int
    } else if s[i] == '|' {
        i
    } else {
        segment_end(s, i + 1)
    }
}

/// `seg` starts with `key` followed by `=`.
pub open spec fn is_entry_for(seg: Seq<char>, key: Seq<char>) -> bool {
    key.len() < seg.len() && seg.subrange(0, key.len() as int) == key && seg[key.len() as int]
        == '='
}

/// The value of the first `key=value` entry among the `|`-separated segments
/// of `feats` from position `start` on.
pub open spec fn feature_from(feats: Seq<char>, key: Seq<char>, start: int) -> Option<Seq<char>>
    decreases feats.len() - start,
    when 0 <= start <= feats.len()
{
    let end = segment_end(feats, start);
    let seg = feats.subrange(start, end);
    if start <= end <= feats.len() && is_entry_for(seg, key) {
        Some(seg.subrange(key.len() + 1int, seg.len() as int))
    } else if end < start || end >= feats.len() {
        None
    } else {
        feature_from(feats, key, end + 1)
    }
}

/// The value that the feature string `feats` gives to `key`, if any.
pub open spec fn feature_value(feats: Seq<char>, key: Seq<char>) -> Option<Seq<char>> {
    feature_from(feats, key, 0)
}

proof fn lemma_segment_end(s: Seq<char>, i: int)
    requires
        0 <= i <= s.len(),
    ensures
        i <= segment_end(s, i) <= s.len(),
        segment_end(s, i) < s.len() ==> s[segment_end(s, i)] == '|',
        forall|k: int| i <= k < segment_end(s, i) ==> s[k] != '|',
        forall|k: int| i <= k <= segment_end(s, i) ==> segment_end(s, k) == segment_end(s, i),
    decreases s.len() - i,
{
    if i < s.len() && s[i] != '|' {
        lemma_segment_end(s, i + 1);
    }
}

impl Word {
    /// Returns the value of a morphological feature, if present.
    pub fn get_feature<'a>(&'a self, key: &str) -> (r: Option<&'a str>)
        ensures
            r matches Some(v) ==> feature_value(self.feats@, key@) == Some(v@),
            r is None ==> feature_value(self.feats@, key@) is None,
    {
        let feats = self.feats.as_str();
        let n = feats.unicode_len();
        let k = key.unicode_len();
        let mut start: usize = 0;
        loop
            invariant
                n == feats@.len(),
                k == key@.len(),
                feats@ == self.feats@,
                start <= n,
                feature_value(feats@, key@) == feature_from(feats@, key@, start as int),
            decreases n - start,
        {
            proof {
                lemma_segment_end(feats@, start as int);
            }
            let mut end: usize = start;
            while end < n && feats.get_char(end) != '|'
                invariant
                    n == feats@.len(),
                    start <= end <= n,
                    end <= segment_end(feats@, start as int),
                    segment_end(feats@, end as int) == segment_end(feats@, start as int),
                decreases n - end,
            {
                proof {
                    lemma_segment_end(feats@, end + 1);
                }
                end = end + 1;
            }
            let ghost seg = feats@.subrange(start as int, end as int);
            if k < end - start && feats.get_char(start + k) == '=' && crate::text::str_eq(
                feats.substring_char(start, start + k),
                key,
            ) {
                assert(seg.subrange(0, k as int) =~= feats@.subrange(start as int, start + k));
                assert(is_entry_for(seg, key@));
                let v = feats.substring_char(start + k + 1, end);
                assert(v@ =~= seg.subrange(k + 1, seg.len() as int));
                return Some(v);
            }
            assert(!is_entry_for(seg, key@)) by {
                if is_entry_for(seg, key@) {
                    assert(seg.subrange(0, k as int) =~= feats@.subrange(start as int, start + k));
                }
            }
            if end >= n {
                return None;
            }
            start = end + 1;
        }
    }

    /// Returns true if this word has the morphological feature `key=value`.
    pub fn has_feature(&self, key: &str, value: &str) -> (r: bool)
        ensures
            r == (feature_value(self.feats@, key@) == Some(value@)),
    {
        match self.get_feature(key) {
            Some(v) => str_eq(v, value),
            None => false,
        }
    }

    /// Returns true if this word is a verb (VERB or AUX).
    pub fn is_verb(&self) -> (r: bool)
        ensures
            r == (self.upostag@ == "VERB"@ || self.upostag@ == "AUX"@),
    {
        str_eq(self.upostag.as_str(), "VERB") || str_eq(self.upostag.as_str(), "AUX")
    }

    /// Returns true if this word is a noun (NOUN or PROPN).
    pub fn is_noun(&self) -> (r: bool)
        ensures
            r == (self.upostag@ == "NOUN"@ || self.upostag@ == "PROPN"@),
    {
        str_eq(self.upostag.as_str(), "NOUN") || str_eq(self.upostag.as_str(), "PROPN")
    }

    /// Returns true if this word is an adjective (ADJ).
    pub fn is_adjective(&self) -> (r: bool)
        ensures
            r == (self.upostag@ == "ADJ"@),
    {
        str_eq(self.upostag.as_str(), "ADJ")
    }

    /// Returns true if this word is punctuation (PUNCT).
    pub fn is_punct(&self) -> (r: bool)
        ensures
            r == (self.upostag@ == "PUNCT"@),
    {
        str_eq(self.upostag.as_str(), "PUNCT")
    }

    /// Returns true if this word is the root of its sentence.
    pub fn is_root(&self) -> (r: bool)
        ensures
            r == (self.deprel@ == "root"@),
    {
        str_eq(self.deprel.as_str(), "root")
    }

    /// Returns true if there is a space after this word: `SpaceAfter=No` is
    /// present in the miscellaneous annotations only when there is none.
    pub fn space_after(&self) -> (r: bool)
        ensures
            r == !contains_seq(self.misc@, "SpaceAfter=No"@),
    {
        !contains_str(self.misc.as_str(), "SpaceAfter=No")
    }
}

} // verus!
