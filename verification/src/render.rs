//! The line emitter's core: turning the lines of an input source into
//! output lines under the selected numbering policy. Counters restart at
//! the start of every source.

use vstd::prelude::*;

use crate::config::Config;
use crate::number::numbered_line;
use crate::number::render_numbered_line;

verus! {

/// The number of non-blank lines in `lines`.
pub open spec fn nonblank_count(lines: Seq<Seq<char>>) -> nat
    decreases lines.len(),
{
    if lines.len() == 0 {
        0
    } else {
        nonblank_count(lines.drop_last()) + (if lines.last().len() == 0 {
            0nat
        } else {
            1nat
        })
    }
}

/// Output line `i` for input `lines`: numbered from 1 when every line is
/// numbered; numbered by its rank among the non-blank lines when only
/// those are numbered, blank lines passing through bare; the line itself
/// otherwise.
pub open spec fn rendered_line(
    number_lines: bool,
    number_nonblank_lines: bool,
    lines: Seq<Seq<char>>,
    i: int,
) -> Seq<char> {
    if number_lines {
        numbered_line((i + 1) as nat, lines[i])
    } else if number_nonblank_lines {
        if lines[i].len() == 0 {
            lines[i]
        } else {
            numbered_line(nonblank_count(lines.take(i + 1)), lines[i])
        }
    } else {
        lines[i]
    }
}

/// The output lines for one input source.
pub open spec fn rendered(
    number_lines: bool,
    number_nonblank_lines: bool,
    lines: Seq<Seq<char>>,
) -> Seq<Seq<char>> {
    Seq::new(lines.len(), |i: int| rendered_line(number_lines, number_nonblank_lines, lines, i))
}

/// Law: rendering keeps the line count — one output line for each input
/// line of the source, whatever the numbering policy.
pub proof fn lemma_rendered_len(
    number_lines: bool,
    number_nonblank_lines: bool,
    lines: Seq<Seq<char>>,
)
    ensures
        rendered(number_lines, number_nonblank_lines, lines).len() == lines.len(),
{
}

/// Law: with no numbering selected, the output lines are the input lines,
/// unchanged and in order.
pub proof fn lemma_plain_identity(lines: Seq<Seq<char>>)
    ensures
        rendered(false, false, lines) == lines,
{
    assert(rendered(false, false, lines) =~= lines);
}

/// Law: with non-blank numbering, a blank line is output bare and consumes
/// no number, and a non-blank line is numbered one past the count of the
/// non-blank lines before it — consecutively, starting at 1.
pub proof fn lemma_nonblank_numbering(lines: Seq<Seq<char>>, i: int)
    requires
        0 <= i < lines.len(),
    ensures
        lines[i].len() == 0 ==> rendered(false, true, lines)[i] == lines[i],
        lines[i].len() == 0 ==> nonblank_count(lines.take(i + 1)) == nonblank_count(lines.take(i)),
        lines[i].len() != 0 ==> rendered(false, true, lines)[i] == numbered_line(
            nonblank_count(lines.take(i)) + 1,
            lines[i],
        ),
{
    assert(lines.take(i + 1).drop_last() =~= lines.take(i));
    assert(lines.take(i + 1).last() == lines[i]);
}

/// The total number of lines over a sequence of sources.
pub open spec fn total_lines(sources: Seq<Seq<Seq<char>>>) -> nat
    decreases sources.len(),
{
    if sources.len() == 0 {
        0
    } else {
        total_lines(sources.drop_last()) + sources.last().len()
    }
}

/// The output lines of several sources in order, each source rendered on
/// its own: both numbering policies restart at the start of every source.
pub open spec fn rendered_all(
    number_lines: bool,
    number_nonblank_lines: bool,
    sources: Seq<Seq<Seq<char>>>,
) -> Seq<Seq<char>>
    decreases sources.len(),
{
    if sources.len() == 0 {
        Seq::empty()
    } else {
        rendered_all(number_lines, number_nonblank_lines, sources.drop_last()) + rendered(
            number_lines,
            number_nonblank_lines,
            sources.last(),
        )
    }
}

/// Law: over several sources the output has exactly one line for each
/// input line, in source order, whatever the numbering policy.
pub proof fn lemma_rendered_all_len(
    number_lines: bool,
    number_nonblank_lines: bool,
    sources: Seq<Seq<Seq<char>>>,
)
    ensures
        rendered_all(number_lines, number_nonblank_lines, sources).len() == total_lines(sources),
    decreases sources.len(),
{
    if sources.len() > 0 {
        lemma_rendered_all_len(number_lines, number_nonblank_lines, sources.drop_last());
    }
}

/// The output lines for the lines of one input source, under the
/// configuration's numbering policy.
pub fn render_source(config: &Config, lines: &Vec<String>) -> (out: Vec<String>)
    ensures
        out.deep_view() == rendered(
            config.spec_number_lines(),
            config.spec_number_nonblank_lines(),
            lines.deep_view(),
        ),
{
    let ghost dv = lines.deep_view();
    let ghost nl = config.spec_number_lines();
    let ghost nb = config.spec_number_nonblank_lines();
    let mut out: Vec<String> = Vec::new();
    let mut nonblank: usize = 0;
    let mut i: usize = 0;
    while i < lines.len()
        invariant
            i <= lines.len(),
            dv == lines.deep_view(),
            nl == config.spec_number_lines(),
            nb == config.spec_number_nonblank_lines(),
            dv.len() == lines@.len(),
            out@.len() == i,
            forall|j: int| 0 <= j < i ==> out@[j]@ == rendered_line(nl, nb, dv, j),
            !nl && nb ==> nonblank == nonblank_count(dv.take(i as int)),
            nonblank <= i,
        decreases lines@.len() - i,
    {
        let line: &String = &lines[i];
        proof {
            assert(line@ == dv[i as int]);
            assert(dv.take(i as int + 1).drop_last() =~= dv.take(i as int));
            assert(dv.take(i as int + 1).last() == dv[i as int]);
        }
        if config.number_lines() {
            let num: u64 = (i + 1) as u64;
            out.push(render_numbered_line(num, line.as_str()));
        } else if config.number_nonblank_lines() {
            if line.as_str().is_empty() {
                out.push(line.clone());
            } else {
                nonblank = nonblank + 1;
                out.push(render_numbered_line(nonblank as u64, line.as_str()));
            }
        } else {
            out.push(line.clone());
        }
        i = i + 1;
    }
    proof {
        assert(out.deep_view() =~= rendered(nl, nb, dv));
    }
    out
}

/// The output lines for several sources in order, each source rendered on
/// its own, under the configuration's numbering policy.
pub fn render_all(config: &Config, sources: &Vec<Vec<String>>) -> (out: Vec<String>)
    ensures
        out.deep_view() == rendered_all(
            config.spec_number_lines(),
            config.spec_number_nonblank_lines(),
            sources.deep_view(),
        ),
{
    let ghost sdv = sources.deep_view();
    let ghost nl = config.spec_number_lines();
    let ghost nb = config.spec_number_nonblank_lines();
    let mut out: Vec<String> = Vec::new();
    let mut i: usize = 0;
    proof {
        assert(sdv.take(0) =~= Seq::<Seq<Seq<char>>>::empty());
        assert(out.deep_view() =~= rendered_all(nl, nb, sdv.take(0)));
    }
    while i < sources.len()
        invariant
            i <= sources.len(),
            sdv == sources.deep_view(),
            nl == config.spec_number_lines(),
            nb == config.spec_number_nonblank_lines(),
            sdv.len() == sources@.len(),
            out.deep_view() == rendered_all(nl, nb, sdv.take(i as int)),
        decreases sources@.len() - i,
    {
        let ghost old_out = out.deep_view();
        let mut part = render_source(config, &sources[i]);
        let ghost part_dv = part.deep_view();
        out.append(&mut part);
        proof {
            assert(sources@[i as int].deep_view() == sdv[i as int]);
            assert(sdv.take(i as int + 1).drop_last() =~= sdv.take(i as int));
            assert(sdv.take(i as int + 1).last() == sdv[i as int]);
            assert(out.deep_view() =~= old_out + part_dv);
            assert(out.deep_view() =~= rendered_all(nl, nb, sdv.take(i as int + 1)));
        }
        i = i + 1;
    }
    proof {
        assert(sdv.take(sdv.len() as int) =~= sdv);
    }
    out
}

} // verus!
