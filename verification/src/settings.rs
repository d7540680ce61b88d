//! The settings window's logic: which engine the radio buttons select, how
//! the language field is shown and read back, and what saving does with the
//! API key fields (see `keystore::persist_key`).

use crate::config::Engine;
use crate::text::{trim, trim_end, trim_start, trimmed};
use vstd::prelude::*;
use vstd::string::StringExecFns;
use vstd::string::StrSliceExecFns;

verus! {

/// The engine selected by the radio buttons: Groq when its button is
/// checked, else OpenAI when its button is checked, else the local engine.
pub fn engine_from_choice(groq_checked: bool, openai_checked: bool) -> (e: Engine)
    ensures
        e == (if groq_checked {
            Engine::Groq
        } else if openai_checked {
            Engine::OpenAI
        } else {
            Engine::Local
        }),
{
    if groq_checked {
        Engine::Groq
    } else if openai_checked {
        Engine::OpenAI
    } else {
        Engine::Local
    }
}

/// The texts of `parts` joined with `sep` between consecutive ones.
pub open spec fn join_with(parts: Seq<Seq<char>>, sep: Seq<char>) -> Seq<char>
    decreases parts.len(),
{
    if parts.len() == 0 {
        Seq::empty()
    } else if parts.len() == 1 {
        parts[0]
    } else {
        join_with(parts.drop_last(), sep) + sep + parts.last()
    }
}

/// The text shown in the language field: the configured languages joined
/// with commas.
pub fn languages_text(languages: &Vec<String>) -> (t: String)
    ensures
        t@ == join_with(languages@.map_values(|s: String| s@), seq![',']),
{
    let ghost parts = languages@.map_values(|s: String| s@);
    let mut out = String::new();
    let mut i: usize = 0;
    while i < languages.len()
        invariant
            0 <= i <= languages@.len(),
            parts == languages@.map_values(|s: String| s@),
            out@ == join_with(parts.take(i as int), seq![',']),
        decreases languages@.len() - i,
    {
        assert(parts.take(i + 1).drop_last() =~= parts.take(i as int));
        if i > 0 {
            out.append(",");
            proof {
                reveal_strlit(",");
                assert(","@ =~= seq![',']);
            }
        } else {
            assert(parts.take(1) =~= seq![parts[0]]);
        }
        out.append(languages[i].as_str());
        i = i + 1;
    }
    assert(parts.take(languages@.len() as int) =~= parts);
    out
}

/// Splitting `s` at every `sep`, read left to right: the pieces completed so
/// far and the piece still open.
pub open spec fn split_state(s: Seq<char>, sep: char) -> (Seq<Seq<char>>, Seq<char>)
    decreases s.len(),
{
    if s.len() == 0 {
        (Seq::empty(), Seq::empty())
    } else {
        let (done, open) = split_state(s.drop_last(), sep);
        if s.last() == sep {
            (done.push(open), Seq::empty())
        } else {
            (done, open.push(s.last()))
        }
    }
}

/// The pieces of `s` between occurrences of `sep` (`str::split` with a
/// character): one more piece than there are separators.
pub open spec fn split_on(s: Seq<char>, sep: char) -> Seq<Seq<char>> {
    let (done, open) = split_state(s, sep);
    done.push(open)
}

/// The trimmed pieces that are not blank, in order.
pub open spec fn nonblank_trimmed(pieces: Seq<Seq<char>>) -> Seq<Seq<char>>
    decreases pieces.len(),
{
    if pieces.len() == 0 {
        Seq::empty()
    } else {
        let r = nonblank_trimmed(pieces.drop_last());
        if trimmed(pieces.last()).len() == 0 {
            r
        } else {
            r.push(trimmed(pieces.last()))
        }
    }
}

/// The languages a language field holds: the comma-separated entries without
/// surrounding white space, blank entries dropped.
pub open spec fn parsed_languages(text: Seq<char>) -> Seq<Seq<char>> {
    nonblank_trimmed(split_on(text, ','))
}

fn keep_piece(out: &mut Vec<String>, piece: &str)
    ensures
        trimmed(piece@).len() == 0 ==> final(out)@ == old(out)@,
        trimmed(piece@).len() != 0 ==> final(out)@.len() == old(out)@.len() + 1
            && final(out)@.take(old(out)@.len() as int) == old(out)@
            && final(out)@.last()@ == trimmed(piece@),
{
    let t = trim(piece);
    if !t.is_empty() {
        out.push(t.to_owned());
        assert(out@.take(old(out)@.len() as int) =~= old(out)@);
    }
}

/// Reads the language field back: the comma-separated entries, trimmed, with
/// blank entries dropped.
pub fn parse_languages(text: &str) -> (langs: Vec<String>)
    ensures
        langs@.map_values(|s: String| s@) == parsed_languages(text@),
{
    let n: usize = text.unicode_len();
    let mut out: Vec<String> = Vec::new();
    let mut start: usize = 0;
    let mut i: usize = 0;
    while i < n
        invariant
            n == text@.len(),
            0 <= start <= i <= n,
            split_state(text@.take(i as int), ',').1 == text@.subrange(start as int, i as int),
            out@.map_values(|s: String| s@) == nonblank_trimmed(split_state(text@.take(i as int), ',').0),
        decreases n - i,
    {
        let c = text.get_char(i);
        let ghost prev = split_state(text@.take(i as int), ',');
        assert(text@.take(i + 1).drop_last() =~= text@.take(i as int));
        assert(text@.take(i + 1).last() == c);
        if c == ',' {
            let piece = text.substring_char(start, i);
            let ghost before = out@;
            keep_piece(&mut out, piece);
            assert(out@.map_values(|s: String| s@) =~= nonblank_trimmed(prev.0.push(prev.1))) by {
                assert(prev.0.push(prev.1).drop_last() =~= prev.0);
                if trimmed(piece@).len() != 0 {
                    assert(out@.map_values(|s: String| s@) =~= before.map_values(|s: String| s@).push(trimmed(piece@)));
                }
            }
            start = i + 1;
            assert(text@.subrange(start as int, i + 1) =~= Seq::<char>::empty());
        } else {
            assert(text@.subrange(start as int, i + 1) =~= text@.subrange(start as int, i as int).push(c));
        }
        i = i + 1;
    }
    let piece = text.substring_char(start, n);
    let ghost state = split_state(text@.take(n as int), ',');
    let ghost before = out@;
    keep_piece(&mut out, piece);
    assert(text@.take(n as int) =~= text@);
    assert(out@.map_values(|s: String| s@) =~= nonblank_trimmed(state.0.push(state.1))) by {
        assert(state.0.push(state.1).drop_last() =~= state.0);
        if trimmed(piece@).len() != 0 {
            assert(out@.map_values(|s: String| s@) =~= before.map_values(|s: String| s@).push(trimmed(piece@)));
        }
    }
    out
}

proof fn lemma_split_state_append(s: Seq<char>, b: Seq<char>, sep: char)
    requires
        !b.contains(sep),
    ensures
        split_state(s + b, sep) == (split_state(s, sep).0, split_state(s, sep).1 + b),
    decreases b.len(),
{
    if b.len() == 0 {
        assert(s + b =~= s);
        assert(split_state(s, sep).1 + b =~= split_state(s, sep).1);
    } else {
        let b0 = b.drop_last();
        assert(!b0.contains(sep)) by {
            if b0.contains(sep) {
                let k: int = choose|k: int| 0 <= k < b0.len() && b0[k] == sep;
                assert(b[k] == sep);
            }
        }
        lemma_split_state_append(s, b0, sep);
        assert((s + b).drop_last() =~= s + b0);
        assert((s + b).last() == b.last());
        assert(b.last() != sep) by {
            assert(b[b.len() - 1] == b.last());
        }
        assert(split_state(s, sep).1 + b0 + seq![b.last()] =~= split_state(s, sep).1 + b);
    }
}

proof fn lemma_split_join(parts: Seq<Seq<char>>, sep: char)
    requires
        parts.len() > 0,
        forall|i: int| 0 <= i < parts.len() ==> !parts[i].contains(sep),
    ensures
        split_on(join_with(parts, seq![sep]), sep) == parts,
    decreases parts.len(),
{
    if parts.len() == 1 {
        lemma_split_state_append(Seq::empty(), parts[0], sep);
        assert(Seq::<char>::empty() + parts[0] =~= parts[0]);
        assert(Seq::<Seq<char>>::empty().push(Seq::<char>::empty() + parts[0]) =~= parts);
    } else {
        let init = parts.drop_last();
        let j = join_with(init, seq![sep]);
        lemma_split_join(init, sep);
        assert(j.push(sep).drop_last() =~= j);
        assert(j.push(sep).last() == sep);
        assert(split_state(j.push(sep), sep) == (split_on(j, sep), Seq::<char>::empty()));
        assert(!parts.last().contains(sep));
        lemma_split_state_append(j.push(sep), parts.last(), sep);
        assert(j + seq![sep] + parts.last() =~= j.push(sep) + parts.last());
        assert(Seq::<char>::empty() + parts.last() =~= parts.last());
        assert(init.push(parts.last()) =~= parts);
    }
}

proof fn lemma_nonblank_trimmed_identity(parts: Seq<Seq<char>>)
    requires
        forall|i: int| 0 <= i < parts.len() ==> trimmed(#[trigger] parts[i]) == parts[i] && parts[i].len() > 0,
    ensures
        nonblank_trimmed(parts) == parts,
    decreases parts.len(),
{
    if parts.len() > 0 {
        let init = parts.drop_last();
        assert forall|i: int| 0 <= i < init.len() implies trimmed(#[trigger] init[i]) == init[i] && init[i].len() > 0 by {
            assert(init[i] == parts[i]);
        }
        lemma_nonblank_trimmed_identity(init);
        assert(parts.last() == parts[parts.len() - 1]);
        assert(init.push(parts.last()) =~= parts);
    }
}

/// Round-trip law of the language field: showing a list of languages and
/// reading the field back gives the same list, as long as every language is
/// non-empty, has no surrounding white space and contains no comma.
pub proof fn lemma_languages_roundtrip(langs: Seq<Seq<char>>)
    requires
        forall|i: int|
            0 <= i < langs.len() ==> trimmed(#[trigger] langs[i]) == langs[i] && langs[i].len() > 0
                && !langs[i].contains(','),
    ensures
        parsed_languages(join_with(langs, seq![','])) == langs,
{
    if langs.len() == 0 {
        assert(split_state(Seq::<char>::empty(), ',') == (Seq::<Seq<char>>::empty(), Seq::<char>::empty()));
        let one = split_on(Seq::<char>::empty(), ',');
        assert(one =~= seq![Seq::<char>::empty()]);
        assert(one.drop_last() =~= Seq::<Seq<char>>::empty());
        assert(trim_start(Seq::<char>::empty()) == Seq::<char>::empty());
        assert(trim_end(Seq::<char>::empty()) == Seq::<char>::empty());
        assert(trimmed(one.last()).len() == 0);
        assert(nonblank_trimmed(one.drop_last()) =~= Seq::<Seq<char>>::empty());
        assert(nonblank_trimmed(one) =~= Seq::<Seq<char>>::empty());
        assert(join_with(langs, seq![',']) =~= Seq::<char>::empty());
    } else {
        lemma_split_join(langs, ',');
        lemma_nonblank_trimmed_identity(langs);
    }
}

} // verus!
