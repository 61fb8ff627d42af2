use crate::error::{outcome_view, ExtractError, ExtractErrorView};
use crate::limits::{MAX_TEXT_LEN, MIN_TEXT_LEN};
use crate::text::{byte_len, lemma_byte_len_concat, str_byte_len, trimmed_byte_len, trimmed_len};
use vstd::prelude::*;

verus! {

/// `n`, or `usize::MAX` where `n` does not fit a `usize`.
pub open spec fn saturated(n: nat) -> nat {
    if n <= usize::MAX {
        n
    } else {
        usize::MAX as nat
    }
}

/// What appending `piece` to `text` gives: the longer text, or the error that
/// reports the size the text would have had.
pub open spec fn append_outcome(text: Seq<char>, piece: Seq<char>) -> Result<
    Seq<char>,
    ExtractErrorView,
> {
    if byte_len(text + piece) <= MAX_TEXT_LEN {
        Ok(text + piece)
    } else {
        Err(ExtractErrorView::TextTooLong { len: saturated(byte_len(text + piece)) })
    }
}

/// What a run of appends gives, one piece after the other: the first append
/// that is refused ends the run with its error.
pub open spec fn append_all(text: Seq<char>, pieces: Seq<Seq<char>>) -> Result<
    Seq<char>,
    ExtractErrorView,
>
    decreases pieces.len(),
{
    if pieces.len() == 0 {
        Ok(text)
    } else {
        match append_outcome(text, pieces.first()) {
            Ok(longer) => append_all(longer, pieces.drop_first()),
            Err(e) => Err(e),
        }
    }
}

/// The verdict on finished text: it is kept if, trimmed, it has at least
/// `MIN_TEXT_LEN` bytes.
pub open spec fn sufficiency(text: Seq<char>) -> Result<Seq<char>, ExtractErrorView> {
    if trimmed_byte_len(text) < MIN_TEXT_LEN {
        Err(ExtractErrorView::InsufficientText { len: trimmed_byte_len(text) })
    } else {
        Ok(text)
    }
}

/// Appending `a + b` is appending `a` and, if that went well, `b`.
pub proof fn lemma_append_all_concat(text: Seq<char>, a: Seq<Seq<char>>, b: Seq<Seq<char>>)
    ensures
        append_all(text, a + b) == match append_all(text, a) {
            Ok(longer) => append_all(longer, b),
            Err(e) => Err(e),
        },
    decreases a.len(),
{
    if a.len() == 0 {
        assert(a + b =~= b);
    } else {
        assert((a + b).first() == a.first());
        assert((a + b).drop_first() =~= a.drop_first() + b);
        match append_outcome(text, a.first()) {
            Ok(longer) => lemma_append_all_concat(longer, a.drop_first(), b),
            Err(_) => {},
        }
    }
}

/// Appending one more piece after `a`.
pub proof fn lemma_append_all_push(text: Seq<char>, a: Seq<Seq<char>>, piece: Seq<char>)
    ensures
        append_all(text, a.push(piece)) == match append_all(text, a) {
            Ok(longer) => append_outcome(longer, piece),
            Err(e) => Err(e),
        },
{
    assert(a.push(piece) =~= a + seq![piece]);
    lemma_append_all_concat(text, a, seq![piece]);
    assert(seq![piece].drop_first() =~= Seq::<Seq<char>>::empty());
    assert forall|t: Seq<char>| #[trigger] append_all(t, seq![piece]) == append_outcome(t, piece) by {
        match append_outcome(t, piece) {
            Ok(longer) => {
                assert(append_all(longer, seq![piece].drop_first()) == Ok::<
                    Seq<char>,
                    ExtractErrorView,
                >(longer));
            },
            Err(_) => {},
        }
    }
}

/// The pieces of a run of appends, written one after the other.
pub open spec fn joined(pieces: Seq<Seq<char>>) -> Seq<char>
    decreases pieces.len(),
{
    if pieces.len() == 0 {
        Seq::empty()
    } else {
        pieces.first() + joined(pieces.drop_first())
    }
}

/// One piece joined is the piece itself.
pub proof fn lemma_joined_single(piece: Seq<char>)
    ensures
        joined(seq![piece]) == piece,
{
    let single = seq![piece];
    assert(single.drop_first() =~= Seq::<Seq<char>>::empty());
    assert(joined(single.drop_first()) =~= Seq::<char>::empty());
    assert(joined(single) =~= single.first() + joined(single.drop_first()));
    assert(joined(single) =~= piece);
}

/// Joining `a + b` is joining `a`, then `b`.
pub proof fn lemma_joined_concat(a: Seq<Seq<char>>, b: Seq<Seq<char>>)
    ensures
        joined(a + b) == joined(a) + joined(b),
    decreases a.len(),
{
    if a.len() == 0 {
        assert(a + b =~= b);
        assert(joined(a) + joined(b) =~= joined(b));
    } else {
        assert((a + b).first() == a.first());
        assert((a + b).drop_first() =~= a.drop_first() + b);
        lemma_joined_concat(a.drop_first(), b);
        assert(joined(a + b) =~= joined(a) + joined(b));
    }
}

/// A run of appends whose pieces all fit under the limit together succeeds
/// and leaves the text followed by all the pieces.
pub proof fn lemma_append_all_fits(text: Seq<char>, pieces: Seq<Seq<char>>)
    requires
        byte_len(text + joined(pieces)) <= MAX_TEXT_LEN,
    ensures
        append_all(text, pieces) == Ok::<Seq<char>, ExtractErrorView>(text + joined(pieces)),
    decreases pieces.len(),
{
    if pieces.len() == 0 {
        assert(text + joined(pieces) =~= text);
    } else {
        let longer = text + pieces.first();
        let rest = pieces.drop_first();
        assert(text + joined(pieces) =~= longer + joined(rest));
        lemma_byte_len_concat(longer, joined(rest));
        lemma_append_all_fits(longer, rest);
    }
}

/// The append that first takes the text over the limit ends the run, with
/// the size reached at that very append, whatever pieces would follow.
pub proof fn lemma_append_all_crossing(text: Seq<char>, pieces: Seq<Seq<char>>, k: int)
    requires
        0 <= k < pieces.len(),
        byte_len(text + joined(pieces.take(k))) <= MAX_TEXT_LEN,
        byte_len(text + joined(pieces.take(k + 1))) > MAX_TEXT_LEN,
    ensures
        append_all(text, pieces) == Err::<Seq<char>, ExtractErrorView>(
            ExtractErrorView::TextTooLong {
                len: saturated(byte_len(text + joined(pieces.take(k + 1)))),
            },
        ),
{
    let before = pieces.take(k);
    let after = pieces.skip(k);
    let held = text + joined(before);
    assert(pieces =~= before + after);
    lemma_append_all_fits(text, before);
    lemma_append_all_concat(text, before, after);
    assert(after.first() == pieces[k]);
    assert(pieces.take(k + 1) =~= before + seq![pieces[k]]);
    lemma_joined_concat(before, seq![pieces[k]]);
    lemma_joined_single(pieces[k]);
    assert(held + pieces[k] =~= text + joined(pieces.take(k + 1)));
}

/// Text under construction that never holds more than `MAX_TEXT_LEN` bytes.
#[derive(Debug)]
pub struct TextBuffer {
    text: String,
}

impl View for TextBuffer {
    type V = Seq<char>;

    closed spec fn view(&self) -> Seq<char> {
        self.text@
    }
}

impl TextBuffer {
    #[verifier::type_invariant]
    spec fn within_limit(&self) -> bool {
        byte_len(self.text@) <= MAX_TEXT_LEN
    }

    /// An empty buffer.
    pub fn new() -> (buf: TextBuffer)
        ensures
            buf@ == Seq::<char>::empty(),
    {
        TextBuffer { text: String::new() }
    }

    /// Number of bytes held.
    pub fn len(&self) -> (n: usize)
        ensures
            n == byte_len(self@),
            n <= MAX_TEXT_LEN,
    {
        proof {
            use_type_invariant(self);
        }
        str_byte_len(self.text.as_str())
    }

    /// Appends `piece`, unless the text would then exceed `MAX_TEXT_LEN`
    /// bytes: in that case the buffer is left as it was and the error tells
    /// the size that was refused.
    pub fn append(&mut self, piece: &str) -> (r: Result<(), ExtractError>)
        ensures
            match append_outcome(old(self)@, piece@) {
                Ok(text) => r is Ok && final(self)@ == text,
                Err(e) => r matches Err(err) && err@ == e && final(self)@ == old(self)@,
            },
    {
        proof {
            use_type_invariant(&*self);
            lemma_byte_len_concat(self@, piece@);
        }
        let held = str_byte_len(self.text.as_str());
        let more = str_byte_len(piece);
        if more > MAX_TEXT_LEN - held {
            let len = if more > usize::MAX - held {
                usize::MAX
            } else {
                held + more
            };
            return Err(ExtractError::TextTooLong { len });
        }
        let mut taken = TextBuffer::new();
        core::mem::swap(self, &mut taken);
        let mut text = taken.text;
        text.append(piece);
        *self = TextBuffer { text };
        Ok(())
    }

    /// Discards everything held.
    pub fn clear(&mut self)
        ensures
            final(self)@ == Seq::<char>::empty(),
    {
        self.text = String::new();
    }

    /// Number of bytes held once white space at both ends is left out.
    pub fn trimmed_len(&self) -> (n: usize)
        ensures
            n == trimmed_byte_len(self@),
    {
        trimmed_len(self.text.as_str())
    }

    /// The text held.
    pub fn as_str(&self) -> (s: &str)
        ensures
            s@ == self@,
            byte_len(s@) <= MAX_TEXT_LEN,
    {
        proof {
            use_type_invariant(self);
        }
        self.text.as_str()
    }

    /// Ends the extraction: the text is handed out if, trimmed, it has at
    /// least `MIN_TEXT_LEN` bytes.
    pub fn finish(self) -> (r: Result<String, ExtractError>)
        ensures
            outcome_view(r) == sufficiency(self@),
    {
        let len = self.trimmed_len();
        if len < MIN_TEXT_LEN {
            Err(ExtractError::InsufficientText { len })
        } else {
            Ok(self.into_string())
        }
    }

    /// Gives up the buffer for the text held.
    pub fn into_string(self) -> (s: String)
        ensures
            s@ == self@,
            byte_len(s@) <= MAX_TEXT_LEN,
    {
        proof {
            use_type_invariant(&self);
        }
        self.text
    }
}

} // verus!
