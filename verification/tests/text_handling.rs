use voxter::context_bias::parse_context_bias;
use voxter::text::trim_str;
use voxter::transcript::{last_transcription_text, text_to_type, type_last_transcript, TranscriptStore};

fn strings(v: &[&str]) -> Vec<String> {
    v.iter().map(|s| s.to_string()).collect()
}

#[test]
fn context_bias_trims_dedupes_and_underscores() {
    assert_eq!(
        parse_context_bias("foo, bar baz ,foo,, qux "),
        strings(&["foo", "bar_baz", "qux"])
    );
}

#[test]
fn context_bias_empty_and_blank() {
    assert_eq!(parse_context_bias(""), Vec::<String>::new());
    assert_eq!(parse_context_bias("   "), Vec::<String>::new());
    assert_eq!(parse_context_bias(",,, ,"), Vec::<String>::new());
}

#[test]
fn context_bias_dedupes_after_normalizing() {
    assert_eq!(parse_context_bias("a b,a_b, a b"), strings(&["a_b"]));
}

#[test]
fn context_bias_keeps_inner_tabs_and_trims_unicode_space() {
    assert_eq!(parse_context_bias("x\ty"), strings(&["x\ty"]));
    assert_eq!(parse_context_bias("\u{3000}term\u{00A0},Mistral AI"), strings(&["term", "Mistral_AI"]));
}

#[test]
fn context_bias_terms_are_clean_and_distinct() {
    let terms = parse_context_bias(" New York , new york,New  York,LA ,, LA");
    assert_eq!(terms, strings(&["New_York", "new_york", "New__York", "LA"]));
    for (i, t) in terms.iter().enumerate() {
        assert!(!t.is_empty());
        assert!(!t.contains(' '));
        assert!(!t.contains(','));
        assert!(!terms[i + 1..].contains(t));
    }
}

#[test]
fn trim_matches_std_trim() {
    for s in ["  a b  ", "\t\n x \u{2003}", "", "   ", "no-trim", "\u{85}y\u{2029}"] {
        assert_eq!(trim_str(s), s.trim());
    }
}

#[test]
fn text_to_type_adds_space_after_sentence_end() {
    assert_eq!(text_to_type("  Hello world. "), "Hello world. ");
    assert_eq!(text_to_type("Really?"), "Really? ");
    assert_eq!(text_to_type("note:"), "note: ");
    assert_eq!(text_to_type("a;"), "a; ");
    assert_eq!(text_to_type("Wow!\n"), "Wow! ");
}

#[test]
fn text_to_type_without_punctuation() {
    assert_eq!(text_to_type(" Hi there "), "Hi there");
    assert_eq!(text_to_type(""), "");
    assert_eq!(text_to_type("   "), "");
    assert_eq!(text_to_type("etc,"), "etc,");
}

#[test]
fn text_to_type_is_idempotent() {
    for s in ["  Hello world. ", "Hi", "", " ? ", "a.b", "x!  "] {
        let once = text_to_type(s);
        assert_eq!(text_to_type(&once), once);
    }
}

#[test]
fn transcript_store_starts_empty() {
    let store = TranscriptStore::new();
    assert_eq!(last_transcription_text(&store), None);
    assert_eq!(type_last_transcript(&store), None);
}

#[test]
fn transcript_store_keeps_trimmed_last() {
    let mut store = TranscriptStore::new();
    assert_eq!(store.record("  first one "), "first one");
    assert_eq!(store.record("\nIs it done? "), "Is it done?");
    assert_eq!(last_transcription_text(&store), Some("Is it done?".to_string()));
    assert_eq!(type_last_transcript(&store), Some("Is it done? ".to_string()));
}

#[test]
fn context_bias_reparses_to_the_same_terms() {
    for s in [
        "",
        " , ,",
        "Voxtral, speech to text ,Voxtral,,  Mistral AI\t",
        "a,b , a , c d,\u{2003}e\u{2003}",
    ] {
        let terms = parse_context_bias(s);
        assert_eq!(parse_context_bias(&terms.join(",")), terms);
    }
}
