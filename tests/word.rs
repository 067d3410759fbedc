use std::collections::HashSet;

use udpipe_rs::{RawWord, Word};

fn make_word(feats: &str) -> Word {
    Word {
        form: "test".to_string(),
        lemma: "test".to_string(),
        upostag: "NOUN".to_string(),
        xpostag: String::new(),
        feats: feats.to_string(),
        deprel: "root".to_string(),
        deps: String::new(),
        misc: String::new(),
        id: 1,
        head: 0,
        sentence_id: 0,
        children: Vec::new(),
    }
}

#[test]
fn test_word_has_feature() {
    let word = make_word("Mood=Imp|VerbForm=Fin");

    assert!(word.has_feature("Mood", "Imp"));
    assert!(word.has_feature("VerbForm", "Fin"));
    assert!(!word.has_feature("Mood", "Ind"));
    assert!(!word.has_feature("Tense", "Past"));
}

#[test]
fn test_word_has_feature_empty() {
    let word = make_word("");
    assert!(!word.has_feature("Mood", "Imp"));
}

#[test]
fn test_word_has_feature_single() {
    let word = make_word("Mood=Imp");
    assert!(word.has_feature("Mood", "Imp"));
    assert!(!word.has_feature("VerbForm", "Fin"));
}

#[test]
fn test_word_get_feature() {
    let word = make_word("Tense=Pres|VerbForm=Part");

    assert_eq!(word.get_feature("Tense"), Some("Pres"));
    assert_eq!(word.get_feature("VerbForm"), Some("Part"));
    assert_eq!(word.get_feature("Mood"), None);
}

#[test]
fn test_word_get_feature_empty() {
    let word = make_word("");
    assert_eq!(word.get_feature("Mood"), None);
}

#[test]
fn test_word_get_feature_single() {
    let word = make_word("Mood=Imp");
    assert_eq!(word.get_feature("Mood"), Some("Imp"));
    assert_eq!(word.get_feature("VerbForm"), None);
}

#[test]
fn get_feature_needs_whole_key() {
    let word = make_word("MoodX=Imp|Mood=Ind");
    assert_eq!(word.get_feature("Mood"), Some("Ind"));
    assert_eq!(word.get_feature("Moo"), None);
}

#[test]
fn get_feature_first_entry_wins_and_value_may_be_empty() {
    let word = make_word("Case=Nom|Case=Acc|Empty=");
    assert_eq!(word.get_feature("Case"), Some("Nom"));
    assert_eq!(word.get_feature("Empty"), Some(""));
    assert!(word.has_feature("Empty", ""));
}

#[test]
fn get_feature_value_keeps_later_equals_signs() {
    let word = make_word("A=b=c|X=Y");
    assert_eq!(word.get_feature("A"), Some("b=c"));
    assert_eq!(word.get_feature("X"), Some("Y"));
}

#[test]
fn get_feature_skips_empty_segments() {
    let word = make_word("|Mood=Imp|");
    assert_eq!(word.get_feature("Mood"), Some("Imp"));
    assert_eq!(word.get_feature(""), None);
}

#[test]
fn test_word_is_verb() {
    let mut word = make_word("");
    word.upostag = "VERB".to_string();
    assert!(word.is_verb());

    word.upostag = "AUX".to_string();
    assert!(word.is_verb());

    word.upostag = "NOUN".to_string();
    assert!(!word.is_verb());
}

#[test]
fn test_word_is_noun() {
    let mut word = make_word("");
    word.upostag = "NOUN".to_string();
    assert!(word.is_noun());

    word.upostag = "PROPN".to_string();
    assert!(word.is_noun());

    word.upostag = "VERB".to_string();
    assert!(!word.is_noun());
}

#[test]
fn test_word_is_root() {
    let mut word = make_word("");
    word.deprel = "root".to_string();
    assert!(word.is_root());

    word.deprel = "nsubj".to_string();
    assert!(!word.is_root());
}

#[test]
fn test_word_is_adjective() {
    let mut word = make_word("");
    word.upostag = "ADJ".to_string();
    assert!(word.is_adjective());

    word.upostag = "NOUN".to_string();
    assert!(!word.is_adjective());
}

#[test]
fn test_word_is_punct() {
    let mut word = make_word("");
    word.upostag = "PUNCT".to_string();
    assert!(word.is_punct());

    word.upostag = "NOUN".to_string();
    assert!(!word.is_punct());
}

#[test]
fn tag_predicates_are_case_sensitive() {
    let mut word = make_word("");
    word.upostag = "verb".to_string();
    assert!(!word.is_verb());
    word.upostag = "VERBS".to_string();
    assert!(!word.is_verb());
    word.deprel = "Root".to_string();
    assert!(!word.is_root());
}

#[test]
fn test_word_hash() {
    let word1 = make_word("Mood=Imp");
    let word2 = make_word("Mood=Imp");
    let mut set = HashSet::new();
    set.insert(word1.clone());
    assert!(set.contains(&word2));
}

#[test]
fn test_space_after() {
    let mut word = make_word("");
    word.misc = String::new();
    assert!(word.space_after()); // default: has space

    word.misc = "SpaceAfter=No".to_string();
    assert!(!word.space_after());

    word.misc = "SpaceAfter=No|Other=Value".to_string();
    assert!(!word.space_after());
}

#[test]
fn space_after_finds_annotation_anywhere() {
    let mut word = make_word("");
    word.misc = "Other=Value|SpaceAfter=No".to_string();
    assert!(!word.space_after());
    word.misc = "SpaceAfter=Yes".to_string();
    assert!(word.space_after());
    word.misc = "SpaceAfter=N".to_string();
    assert!(word.space_after());
}

fn raw_word(id: i32) -> RawWord {
    RawWord {
        form: Some("Hello".to_string()),
        lemma: None,
        upostag: Some("INTJ".to_string()),
        xpostag: Some("UH".to_string()),
        feats: None,
        deprel: Some("root".to_string()),
        deps: None,
        misc: Some("SpaceAfter=No".to_string()),
        id,
        head: 0,
        sentence_id: 3,
        children: Some(vec![2, 3]),
    }
}

#[test]
fn raw_word_fields_are_copied_and_missing_ones_empty() {
    let w = Word::from_raw(&raw_word(1));
    assert_eq!(w.form, "Hello");
    assert_eq!(w.lemma, "");
    assert_eq!(w.upostag, "INTJ");
    assert_eq!(w.xpostag, "UH");
    assert_eq!(w.feats, "");
    assert_eq!(w.deprel, "root");
    assert_eq!(w.deps, "");
    assert_eq!(w.misc, "SpaceAfter=No");
    assert_eq!(w.id, 1);
    assert_eq!(w.head, 0);
    assert_eq!(w.sentence_id, 3);
    assert_eq!(w.children, vec![2, 3]);
    assert!(!w.space_after());
}

#[test]
fn missing_child_array_gives_no_children() {
    let mut raw = raw_word(2);
    raw.children = None;
    let w = Word::from_raw(&raw);
    assert!(w.children.is_empty());
    assert_eq!(w.id, 2);
}

#[test]
fn child_array_len_ignores_null_and_non_positive_counts() {
    assert_eq!(udpipe_rs::child_array_len(true, 3), 3);
    assert_eq!(udpipe_rs::child_array_len(true, 0), 0);
    assert_eq!(udpipe_rs::child_array_len(true, -4), 0);
    assert_eq!(udpipe_rs::child_array_len(false, 5), 0);
}

#[test]
fn words_from_raw_keeps_order() {
    let raws = vec![raw_word(1), raw_word(2), raw_word(3)];
    let words = udpipe_rs::words_from_raw(&raws);
    assert_eq!(words.len(), 3);
    assert_eq!(words[0].id, 1);
    assert_eq!(words[2].id, 3);
    assert!(udpipe_rs::words_from_raw(&Vec::new()).is_empty());
}
