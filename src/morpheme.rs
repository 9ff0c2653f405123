use vstd::prelude::*;
use crate::text::{int_decimal, join, lemma_join_push, nat_decimal, push_int, push_nat};

verus! {

/// One unit of an analysis result, as handed to the host runtime.
#[allow(non_snake_case)]
#[derive(Debug, Clone, Default, PartialEq, Eq)]
pub struct MorphemeObject {
    pub surface: String,
    pub dictionaryForm: String,
    pub readingForm: String,
    pub partOfSpeech: Vec<String>,
    pub normalizedForm: String,
    pub dictionaryId: i32,
    pub synonymGroupIds: Vec<u32>,
    pub isOov: bool,
}

/// The part-of-speech tags of `m`, separated by commas.
pub open spec fn pos_text(m: MorphemeObject) -> Seq<char> {
    join(m.partOfSpeech@.map_values(|p: String| p@), seq![','])
}

/// A list of synonym group ids in list notation: `[1, 2, 3]`, or `[]`.
pub open spec fn id_list_text(ids: Seq<u32>) -> Seq<char> {
    seq!['['] + join(ids.map_values(|i: u32| nat_decimal(i as nat)), seq![',', ' ']) + seq![']']
}

/// The line that describes `m` in the detailed rendering, newline included:
/// surface, tags and normalized form separated by tabs, and with `print_all`
/// also dictionary form, reading form, dictionary id, synonym groups and an
/// out-of-vocabulary marker.
pub open spec fn line_text(m: MorphemeObject, print_all: bool) -> Seq<char> {
    let base = m.surface@ + seq!['\t'] + pos_text(m) + seq!['\t'] + m.normalizedForm@;
    let extra = if print_all {
        seq!['\t'] + m.dictionaryForm@ + seq!['\t'] + m.readingForm@ + seq!['\t'] + int_decimal(
            m.dictionaryId as int,
        ) + seq!['\t'] + id_list_text(m.synonymGroupIds@) + if m.isOov {
            seq!['\t', '(', 'O', 'O', 'V', ')']
        } else {
            Seq::empty()
        }
    } else {
        Seq::empty()
    };
    base + extra + seq!['\n']
}

/// The lines of all morphemes, in order.
pub open spec fn lines_text(ms: Seq<MorphemeObject>, print_all: bool) -> Seq<char>
    decreases ms.len(),
{
    if ms.len() == 0 {
        Seq::empty()
    } else {
        lines_text(ms.drop_last(), print_all) + line_text(ms.last(), print_all)
    }
}

/// The surfaces of all morphemes, separated by single spaces.
pub open spec fn wakati_text(ms: Seq<MorphemeObject>) -> Seq<char> {
    join(ms.map_values(|m: MorphemeObject| m.surface@), seq![' '])
}

/// The text rendering of an analysis result: the space-separated surfaces
/// with `wakati`, else one line per morpheme followed by `EOS` and a newline.
pub open spec fn render_text(ms: Seq<MorphemeObject>, wakati: bool, print_all: bool) -> Seq<char> {
    if wakati {
        wakati_text(ms)
    } else {
        lines_text(ms, print_all) + seq!['E', 'O', 'S', '\n']
    }
}

/// Appends `parts` to `out` with `sep` between neighbours.
fn push_joined(out: &mut String, parts: &Vec<String>, sep: &str)
    ensures
        final(out)@ == old(out)@ + join(parts@.map_values(|p: String| p@), sep@),
{
    let ghost mapped = parts@.map_values(|p: String| p@);
    let ghost start = out@;
    let mut i: usize = 0;
    while i < parts.len()
        invariant
            i <= parts.len(),
            mapped == parts@.map_values(|p: String| p@),
            out@ == start + join(mapped.take(i as int), sep@),
        decreases parts.len() - i,
    {
        proof {
            lemma_join_push(mapped, sep@, i as int);
        }
        if i > 0 {
            out.append(sep);
        }
        out.append(parts[i].as_str());
        i = i + 1;
    }
    assert(mapped.take(parts.len() as int) =~= mapped);
}

/// Appends the list notation of `ids` to `out`.
fn push_id_list(out: &mut String, ids: &Vec<u32>)
    ensures
        final(out)@ == old(out)@ + id_list_text(ids@),
{
    proof {
        reveal_strlit("[");
        reveal_strlit("]");
        reveal_strlit(", ");
    }
    assert("["@ =~= seq!['[']);
    assert("]"@ =~= seq![']']);
    assert(", "@ =~= seq![',', ' ']);
    let ghost mapped = ids@.map_values(|i: u32| nat_decimal(i as nat));
    let ghost start = out@;
    out.append("[");
    let mut i: usize = 0;
    while i < ids.len()
        invariant
            i <= ids.len(),
            mapped == ids@.map_values(|i: u32| nat_decimal(i as nat)),
            out@ == start + seq!['['] + join(mapped.take(i as int), seq![',', ' ']),
            ", "@ == seq![',', ' '],
        decreases ids.len() - i,
    {
        proof {
            lemma_join_push(mapped, seq![',', ' '], i as int);
        }
        if i > 0 {
            out.append(", ");
        }
        push_nat(out, ids[i] as u64);
        assert(mapped[i as int] == nat_decimal(ids@[i as int] as nat));
        assert(out@ =~= start + seq!['['] + join(mapped.take(i + 1), seq![',', ' ']));
        i = i + 1;
    }
    assert(mapped.take(ids.len() as int) =~= mapped);
    out.append("]");
}

/// Appends the detailed line of `m` to `out`.
fn push_line(out: &mut String, m: &MorphemeObject, print_all: bool)
    ensures
        final(out)@ == old(out)@ + line_text(*m, print_all),
{
    proof {
        reveal_strlit("\t");
        reveal_strlit(",");
        reveal_strlit("\n");
        reveal_strlit("\t(OOV)");
    }
    assert("\t"@ =~= seq!['\t']);
    assert(","@ =~= seq![',']);
    let ghost start = out@;
    out.append(m.surface.as_str());
    out.append("\t");
    push_joined(out, &m.partOfSpeech, ",");
    out.append("\t");
    out.append(m.normalizedForm.as_str());
    let ghost base = out@;
    assert(base =~= start + m.surface@ + seq!['\t'] + pos_text(*m) + seq!['\t'] + m.normalizedForm@);
    if print_all {
        out.append("\t");
        out.append(m.dictionaryForm.as_str());
        out.append("\t");
        out.append(m.readingForm.as_str());
        out.append("\t");
        push_int(out, m.dictionaryId as i64);
        out.append("\t");
        push_id_list(out, &m.synonymGroupIds);
        if m.isOov {
            out.append("\t(OOV)");
        }
        assert(out@ =~= base + seq!['\t'] + m.dictionaryForm@ + seq!['\t'] + m.readingForm@ + seq!['\t'] + int_decimal(
            m.dictionaryId as int) + seq!['\t'] + id_list_text(m.synonymGroupIds@) + if m.isOov {
            seq!['\t', '(', 'O', 'O', 'V', ')']
        } else {
            Seq::empty()
        });
    }
    out.append("\n");
    assert(out@ =~= start + line_text(*m, print_all));
}

/// Renders an analysis result as text: with `wakati` the surfaces separated
/// by spaces, else one tab-separated line per morpheme and a closing `EOS` line.
pub fn render_morphemes(morphemes: &Vec<MorphemeObject>, wakati: bool, print_all: bool) -> (r:
    String)
    ensures
        r@ == render_text(morphemes@, wakati, print_all),
{
    proof {
        reveal_strlit(" ");
        reveal_strlit("EOS\n");
    }
    assert(" "@ =~= seq![' ']);
    assert("EOS\n"@ =~= seq!['E', 'O', 'S', '\n']);
    let mut out = String::new();
    if wakati {
        let ghost mapped = morphemes@.map_values(|m: MorphemeObject| m.surface@);
        let mut i: usize = 0;
        while i < morphemes.len()
            invariant
                i <= morphemes.len(),
                mapped == morphemes@.map_values(|m: MorphemeObject| m.surface@),
                out@ == join(mapped.take(i as int), seq![' ']),
                " "@ == seq![' '],
            decreases morphemes.len() - i,
        {
            proof {
                lemma_join_push(mapped, seq![' '], i as int);
            }
            if i > 0 {
                out.append(" ");
            }
            out.append(morphemes[i].surface.as_str());
            assert(mapped[i as int] == morphemes@[i as int].surface@);
            assert(out@ =~= join(mapped.take(i + 1), seq![' ']));
            i = i + 1;
        }
        assert(mapped.take(morphemes.len() as int) =~= mapped);
    } else {
        let mut i: usize = 0;
        while i < morphemes.len()
            invariant
                i <= morphemes.len(),
                out@ == lines_text(morphemes@.take(i as int), print_all),
            decreases morphemes.len() - i,
        {
            push_line(&mut out, &morphemes[i], print_all);
            assert(morphemes@.take(i + 1).drop_last() =~= morphemes@.take(i as int));
            i = i + 1;
        }
        assert(morphemes@.take(morphemes.len() as int) =~= morphemes@);
        out.append("EOS\n");
    }
    out
}

} // verus!
