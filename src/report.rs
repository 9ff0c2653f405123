use vstd::prelude::*;
use crate::text::{digit_char, nat_decimal, push_nat};

verus! {

/// What one section of a dictionary build produced and how long it took.
#[derive(Debug, Clone)]
pub struct ReportPart {
    /// Name of the section.
    pub part: String,
    /// Bytes written, or entries processed.
    pub size: u64,
    /// Whether `size` counts bytes written rather than entries.
    pub is_write: bool,
    /// Time spent on the section, in microseconds.
    pub elapsed_micros: u64,
}

/// Elapsed microseconds rounded to the nearest millisecond, halves up.
pub open spec fn rounded_millis(micros: nat) -> nat {
    micros / 1000 + if micros % 1000 >= 500 {
        1nat
    } else {
        0nat
    }
}

/// Seconds with exactly three decimals, from whole milliseconds.
pub open spec fn seconds_text(millis: nat) -> Seq<char> {
    let frac = millis % 1000;
    nat_decimal(millis / 1000) + seq![
        '.',
        digit_char(frac / 100),
        digit_char((frac / 10) % 10),
        digit_char(frac % 10),
    ]
}

/// `bytes` for a section that wrote output, `entries` otherwise.
pub open spec fn unit_text(is_write: bool) -> Seq<char> {
    if is_write {
        seq!['b', 'y', 't', 'e', 's']
    } else {
        seq!['e', 'n', 't', 'r', 'i', 'e', 's']
    }
}

/// The report line of one section: `<part> <size> <unit> in <seconds> sec`.
pub open spec fn part_line(p: ReportPart) -> Seq<char> {
    p.part@ + seq![' '] + nat_decimal(p.size as nat) + seq![' '] + unit_text(p.is_write) + seq![
        ' ',
        'i',
        'n',
        ' ',
    ] + seconds_text(rounded_millis(p.elapsed_micros as nat)) + seq![' ', 's', 'e', 'c', '\n']
}

/// The lines of all sections, in order.
pub open spec fn report_text(parts: Seq<ReportPart>) -> Seq<char>
    decreases parts.len(),
{
    if parts.len() == 0 {
        Seq::empty()
    } else {
        report_text(parts.drop_last()) + part_line(parts.last())
    }
}

fn push_digit(out: &mut String, d: u64)
    requires
        d < 10,
    ensures
        final(out)@ == old(out)@ + seq![digit_char(d as nat)],
{
    push_nat(out, d);
    assert(nat_decimal(d as nat) == seq![digit_char(d as nat)]);
}

fn push_part_line(out: &mut String, p: &ReportPart)
    ensures
        final(out)@ == old(out)@ + part_line(*p),
{
    proof {
        reveal_strlit(" ");
        reveal_strlit("bytes");
        reveal_strlit("entries");
        reveal_strlit(" in ");
        reveal_strlit(".");
        reveal_strlit(" sec\n");
    }
    assert(" "@ =~= seq![' ']);
    assert("bytes"@ =~= seq!['b', 'y', 't', 'e', 's']);
    assert("entries"@ =~= seq!['e', 'n', 't', 'r', 'i', 'e', 's']);
    assert(" in "@ =~= seq![' ', 'i', 'n', ' ']);
    assert("."@ =~= seq!['.']);
    assert(" sec\n"@ =~= seq![' ', 's', 'e', 'c', '\n']);
    let ghost start = out@;
    out.append(p.part.as_str());
    out.append(" ");
    push_nat(out, p.size);
    out.append(" ");
    if p.is_write {
        out.append("bytes");
    } else {
        out.append("entries");
    }
    out.append(" in ");
    let millis: u64 = p.elapsed_micros / 1000 + if p.elapsed_micros % 1000 >= 500 {
        1u64
    } else {
        0u64
    };
    let frac: u64 = millis % 1000;
    push_nat(out, millis / 1000);
    out.append(".");
    push_digit(out, frac / 100);
    push_digit(out, (frac / 10) % 10);
    push_digit(out, frac % 10);
    out.append(" sec\n");
    assert(out@ =~= start + part_line(*p));
}

/// Renders a build report, one line per section in order.
pub fn render_report(parts: &Vec<ReportPart>) -> (r: String)
    ensures
        r@ == report_text(parts@),
{
    let mut out = String::new();
    let mut i: usize = 0;
    while i < parts.len()
        invariant
            i <= parts.len(),
            out@ == report_text(parts@.take(i as int)),
        decreases parts.len() - i,
    {
        push_part_line(&mut out, &parts[i]);
        assert(parts@.take(i + 1).drop_last() =~= parts@.take(i as int));
        i = i + 1;
    }
    assert(parts@.take(parts.len() as int) =~= parts@);
    out
}

} // verus!
