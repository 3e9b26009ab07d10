//! The last transcript and how a transcript is prepared for typing.
use vstd::prelude::*;
use crate::text::{
    is_white_space, lemma_trimmed_at, lemma_trimmed_ends, law_trimmed_idempotent, trim_str,
    trimmed,
};

verus! {

/// The characters after which a typed transcript gets a trailing space.
pub open spec fn is_sentence_end(c: char) -> bool {
    c == '.' || c == '!' || c == '?' || c == ':' || c == ';'
}

/// What is typed for a transcript: the trimmed text, followed by one space
/// when it ends with sentence punctuation.
pub open spec fn typed_text(s: Seq<char>) -> Seq<char> {
    let c = trimmed(s);
    if c.len() > 0 && is_sentence_end(c.last()) {
        c.push(' ')
    } else {
        c
    }
}

/// Preparing a transcript for typing a second time changes nothing.
pub proof fn law_typed_text_idempotent(s: Seq<char>)
    ensures
        typed_text(typed_text(s)) == typed_text(s),
{
    let c = trimmed(s);
    lemma_trimmed_ends(s);
    if c.len() > 0 && is_sentence_end(c.last()) {
        let t = c.push(' ');
        assert(is_white_space(' '));
        assert(t[c.len() as int] == ' ');
        assert(t[c.len() - 1] == c.last());
        assert(t[0] == c[0]);
        lemma_trimmed_at(t, 0, c.len() as int);
        assert(t.subrange(0, c.len() as int) =~= c);
    } else {
        law_trimmed_idempotent(s);
    }
}

/// Typing a stored (trimmed) transcript types the same text as typing the
/// transcript as it came.
pub proof fn law_typed_text_of_trimmed(s: Seq<char>)
    ensures
        typed_text(trimmed(s)) == typed_text(s),
{
    law_trimmed_idempotent(s);
}

/// What is typed is the trimmed transcript, with exactly one space added when
/// it ends in `.`, `!`, `?`, `:` or `;`, and nothing added otherwise.
pub proof fn law_typed_text_shape(s: Seq<char>)
    ensures
        ({
            let c = trimmed(s);
            let ends_sentence = c.len() > 0 && (c.last() == '.' || c.last() == '!' || c.last()
                == '?' || c.last() == ':' || c.last() == ';');
            &&& ends_sentence ==> typed_text(s) == c.push(' ')
            &&& !ends_sentence ==> typed_text(s) == c
        }),
{
}

/// The text to type for `text`: surrounding white space removed, and a space
/// added after closing sentence punctuation.
pub fn text_to_type(text: &str) -> (r: String)
    ensures
        r@ == typed_text(text@),
{
    let mut clean = trim_str(text);
    let n = clean.as_str().unicode_len();
    if n > 0 {
        let last = clean.as_str().get_char(n - 1);
        if last == '.' || last == '!' || last == '?' || last == ':' || last == ';' {
            clean.append(" ");
            proof {
                reveal_strlit(" ");
                assert(clean@ =~= trimmed(text@).push(' '));
            }
        }
    }
    clean
}

/// The most recent transcript, if any.
pub struct TranscriptStore {
    last: Option<String>,
}

impl View for TranscriptStore {
    type V = Option<Seq<char>>;

    closed spec fn view(&self) -> Option<Seq<char>> {
        match self.last {
            Some(t) => Some(t@),
            None => None,
        }
    }
}

impl TranscriptStore {
    /// A store that holds no transcript yet.
    pub fn new() -> (r: Self)
        ensures
            r@ is None,
    {
        TranscriptStore { last: None }
    }

    /// Stores the trimmed `raw` transcript as the last one and returns it.
    pub fn record(&mut self, raw: &str) -> (r: String)
        ensures
            r@ == trimmed(raw@),
            final(self)@ == Some(trimmed(raw@)),
    {
        let clean = trim_str(raw);
        self.last = Some(clean.clone());
        clean
    }
}

/// The last transcript, if one was recorded.
pub fn last_transcription_text(store: &TranscriptStore) -> (r: Option<String>)
    ensures
        r is Some <==> store@ is Some,
        r matches Some(t) ==> store@ == Some(t@),
{
    match &store.last {
        Some(t) => Some(t.clone()),
        None => None,
    }
}

/// The text to type for the last transcript: `None` when there is none
/// (nothing is typed), else the prepared text.
pub fn type_last_transcript(store: &TranscriptStore) -> (r: Option<String>)
    ensures
        r is Some <==> store@ is Some,
        r matches Some(t) ==> t@ == typed_text(store@->0),
{
    match last_transcription_text(store) {
        Some(t) => Some(text_to_type(t.as_str())),
        None => None,
    }
}

} // verus!
