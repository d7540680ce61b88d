//! Local transcription with whisper.cpp: the language hint handed to the
//! model and how its segments become one transcript.

use crate::text::{trim, trimmed};
use vstd::prelude::*;
use vstd::string::StringExecFns;

verus! {

/// The whisper language setting: the first configured language, or `auto`
/// (detect the language) when none is configured.
pub fn whisper_language(languages: &Vec<String>) -> (r: String)
    ensures
        languages@.len() > 0 ==> r@ == languages@[0]@,
        languages@.len() == 0 ==> r@ == "auto"@,
{
    if languages.len() > 0 {
        languages[0].clone()
    } else {
        "auto".to_owned()
    }
}

/// All texts of `segments`, in order, without separators.
pub open spec fn concat_all(segments: Seq<Seq<char>>) -> Seq<char>
    decreases segments.len(),
{
    if segments.len() == 0 {
        Seq::empty()
    } else {
        concat_all(segments.drop_last()) + segments.last()
    }
}

/// Concatenation laws: no segments give nothing, one segment gives exactly
/// its text, and appending a segment appends its text; so the joined text of
/// two lists of segments is the join of each, in order, and its length is the
/// sum of the segments' lengths.
pub proof fn lemma_concat_all(s: Seq<Seq<char>>, t: Seq<Seq<char>>, x: Seq<char>)
    ensures
        concat_all(Seq::empty()) == Seq::<char>::empty(),
        concat_all(seq![x]) == x,
        concat_all(s.push(x)) == concat_all(s) + x,
        concat_all(s + t) == concat_all(s) + concat_all(t),
        t.len() > 0 ==> concat_all(t).len() == concat_all(t.drop_last()).len() + t.last().len(),
    decreases t.len(),
{
    assert(seq![x].drop_last() =~= Seq::<Seq<char>>::empty());
    assert(concat_all(Seq::<Seq<char>>::empty()) == Seq::<char>::empty());
    assert(concat_all(seq![x]) == concat_all(seq![x].drop_last()) + seq![x].last());
    assert(Seq::<char>::empty() + x =~= x);
    assert(s.push(x).drop_last() =~= s);
    if t.len() == 0 {
        assert(s + t =~= s);
        assert(concat_all(s) + Seq::<char>::empty() =~= concat_all(s));
    } else {
        lemma_concat_all(s, t.drop_last(), x);
        assert((s + t).drop_last() =~= s + t.drop_last());
        assert((s + t).last() == t.last());
        assert(concat_all(s) + concat_all(t.drop_last()) + t.last() =~= concat_all(s) + (concat_all(
            t.drop_last(),
        ) + t.last()));
    }
}

/// One-segment law: a transcript of a single segment is that segment's text
/// without surrounding white space.
pub proof fn lemma_join_one_segment(x: Seq<char>)
    ensures
        trimmed(concat_all(seq![x])) == trimmed(x),
{
    lemma_concat_all(Seq::empty(), Seq::empty(), x);
}

/// The transcript made of whisper's segment texts: their concatenation,
/// without surrounding white space.
pub fn join_segments(segments: &Vec<String>) -> (t: String)
    ensures
        t@ == trimmed(concat_all(segments@.map_values(|s: String| s@))),
{
    let ghost texts = segments@.map_values(|s: String| s@);
    let mut out = String::new();
    let mut i: usize = 0;
    while i < segments.len()
        invariant
            0 <= i <= segments@.len(),
            texts == segments@.map_values(|s: String| s@),
            out@ == concat_all(texts.take(i as int)),
        decreases segments@.len() - i,
    {
        assert(texts.take(i + 1).drop_last() =~= texts.take(i as int));
        out.append(segments[i].as_str());
        i = i + 1;
    }
    assert(texts.take(segments@.len() as int) =~= texts);
    trim(out.as_str()).to_owned()
}

} // verus!
