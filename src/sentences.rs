use vstd::prelude::*;

verus! {

/// The texts of `parts` written one after another.
pub open spec fn concat_all(parts: Seq<Seq<char>>) -> Seq<char>
    decreases parts.len(),
{
    if parts.len() == 0 {
        Seq::empty()
    } else {
        concat_all(parts.drop_last()) + parts.last()
    }
}

/// The views of a list of strings.
pub open spec fn texts_of(v: Seq<String>) -> Seq<Seq<char>> {
    v.map_values(|s: String| s@)
}

/// The sentence list handed back for `text` when the splitter found
/// `found`: a non-empty text for which nothing was found is one sentence.
pub open spec fn finalized(text: Seq<char>, found: Seq<Seq<char>>) -> Seq<Seq<char>> {
    if found.len() == 0 && text.len() > 0 {
        seq![text]
    } else {
        found
    }
}

/// Completes the splitter's result for `text`: where it found no sentence in
/// a non-empty text, the whole text is the one sentence, so no text is lost.
pub fn finalize_sentences(text: &str, found: Vec<String>) -> (r: Vec<String>)
    ensures
        texts_of(r@) == finalized(text@, texts_of(found@)),
        !(found@.len() == 0 && text@.len() > 0) ==> r@ == found@,
{
    if found.len() == 0 && !text.is_empty() {
        let r = vec![text.to_owned()];
        assert(texts_of(r@) =~= seq![text@]);
        r
    } else {
        found
    }
}

/// Whenever the splitter's sentences reconstruct the text, so do the
/// finalized sentences, and a non-empty text yields at least one sentence.
pub proof fn lemma_finalized_reconstructs(text: Seq<char>, found: Seq<Seq<char>>)
    requires
        concat_all(found) == text,
    ensures
        concat_all(finalized(text, found)) == text,
        text.len() > 0 ==> finalized(text, found).len() > 0,
{
    if found.len() == 0 && text.len() > 0 {
        let one = seq![text];
        assert(one.drop_last() =~= Seq::<Seq<char>>::empty());
        assert(concat_all(one) =~= text);
    }
}

} // verus!
