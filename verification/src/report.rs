//! Rendering of a check result as the report the tool prints.
//!
//! The report is specified character by character: a header with the match
//! count, one numbered entry per match (category, clamped snippet, at most
//! three suggestions, context), and a summary with the total and the
//! repeated-occurrence count.

use vstd::prelude::*;

use crate::counting::count_duplicates;
use crate::counting::dup_count;
use crate::counting::views_of;
use crate::model::rep_views;
use crate::model::CheckResult;
use crate::model::Match;
use crate::model::MatchV;
use crate::model::ReplacementV;
use crate::model::Replacement;
use crate::numfmt::dec_str;
use crate::numfmt::usize_to_string;
use crate::snippet::get_error_snippet;
use crate::snippet::snippet_of;

verus! {

/// The separator line: sixty dashes.
pub open spec fn dash_line() -> Seq<char> {
    "------------------------------------------------------------\n"@
}

/// The line printed when the service reported no issues.
pub open spec fn no_errors_line() -> Seq<char> {
    "✓ No se encontraron errores\n"@
}

/// The line printed when the examined file is empty.
pub open spec fn empty_file_line() -> Seq<char> {
    "El archivo está vacío.\n"@
}

/// The report's opening: a blank line, the match count, and a separator.
pub open spec fn header_spec(n: nat) -> Seq<char> {
    "\n"@ + dec_str(n) + " errores encontrados:\n\n"@ + dash_line()
}

/// The replacement strings proposed for one match.
pub open spec fn values_of(reps: Seq<ReplacementV>) -> Seq<Seq<char>> {
    reps.map_values(|r: ReplacementV| r.value)
}

/// A suggestion as rendered: the replacement string in single quotes.
pub open spec fn quoted_suggestion(v: Seq<char>) -> Seq<char> {
    "'"@ + v + "'"@
}

/// The first `n` suggestion values, quoted and comma-joined.
pub open spec fn suggestion_list(vals: Seq<Seq<char>>, n: int) -> Seq<char>
    recommends
        n <= vals.len(),
    decreases n,
{
    if n <= 0 {
        Seq::empty()
    } else if n == 1 {
        quoted_suggestion(vals[0])
    } else {
        suggestion_list(vals, n - 1) + ", "@ + quoted_suggestion(vals[n - 1])
    }
}

/// How many suggestions are shown for a match with `len` replacements:
/// all of them, but never more than three.
pub open spec fn shown_count(len: nat) -> int {
    if len < 3 {
        len as int
    } else {
        3
    }
}

/// The rendered suggestion text for one match: the first (at most three)
/// replacements quoted and comma-joined, or the word for "none".
pub open spec fn suggestions_spec(vals: Seq<Seq<char>>) -> Seq<char> {
    if vals.len() == 0 {
        "ninguna"@
    } else {
        suggestion_list(vals, shown_count(vals.len()))
    }
}

/// One numbered report entry for the match `m`, at zero-based position
/// `idx` in the result.
pub open spec fn entry_spec(m: MatchV, idx: nat, text: Seq<char>) -> Seq<char> {
    dec_str(idx + 1) + ". ["@ + m.rule.category.name + "]\n   Error: \""@ + snippet_of(
        text,
        m.offset,
        m.length,
    ) + "\"\n   Sugerencias: "@ + suggestions_spec(values_of(m.replacements))
        + "\n   Contexto: ..."@ + m.context.text + "...\n\n"@
}

/// The snippet each match covers in the submitted text, in match order.
pub open spec fn snippets_of(ms: Seq<MatchV>, text: Seq<char>) -> Seq<Seq<char>> {
    ms.map_values(|m: MatchV| snippet_of(text, m.offset, m.length))
}

/// The first `n` report entries, concatenated.
pub open spec fn entries_spec(ms: Seq<MatchV>, text: Seq<char>, n: int) -> Seq<char>
    recommends
        n <= ms.len(),
    decreases n,
{
    if n <= 0 {
        Seq::empty()
    } else {
        entries_spec(ms, text, n - 1) + entry_spec(ms[n - 1], (n - 1) as nat, text)
    }
}

/// The report's closing summary: a separator, the total number of issues,
/// and the repeated-occurrence count over the extracted snippets.
pub open spec fn footer_spec(ms: Seq<MatchV>, text: Seq<char>) -> Seq<char> {
    dash_line() + "Resumen:\n  Palabras mal escritas (total): "@ + dec_str(ms.len())
        + "\n  Repeticiones de las mismas palabras: "@ + dec_str(
        dup_count(snippets_of(ms, text)),
    ) + "\n"@
}

/// The whole report for a check result over the submitted text: the
/// no-errors line when nothing was found, otherwise header, entries and
/// summary.
pub open spec fn report_spec(ms: Seq<MatchV>, text: Seq<char>) -> Seq<char> {
    if ms.len() == 0 {
        no_errors_line()
    } else {
        header_spec(ms.len()) + entries_spec(ms, text, ms.len() as int) + footer_spec(ms, text)
    }
}

/// A result with no matches renders as exactly the no-errors line and
/// nothing else.
pub proof fn lemma_report_empty(ms: Seq<MatchV>, text: Seq<char>)
    requires
        ms.len() == 0,
    ensures
        report_spec(ms, text) == no_errors_line(),
{
}

proof fn lemma_suggestion_list_prefix(a: Seq<Seq<char>>, b: Seq<Seq<char>>, n: int)
    requires
        n <= a.len(),
        n <= b.len(),
        forall|i: int| 0 <= i < n ==> a[i] == b[i],
    ensures
        suggestion_list(a, n) == suggestion_list(b, n),
    decreases n,
{
    if n > 1 {
        lemma_suggestion_list_prefix(a, b, n - 1);
    }
}

/// No more than three suggestions are ever rendered: the suggestion text
/// depends only on the three-element prefix of the replacement values,
/// however many the service returned.
pub proof fn lemma_suggestions_capped(vals: Seq<Seq<char>>)
    ensures
        shown_count(vals.len()) <= 3,
        suggestions_spec(vals) == suggestions_spec(vals.take(shown_count(vals.len()))),
{
    if vals.len() != 0 {
        let k = shown_count(vals.len());
        let p = vals.take(k);
        assert(p.len() == k);
        lemma_suggestion_list_prefix(vals, p, k);
    }
}

/// The message for an empty input file.
pub fn empty_file_report() -> (r: String)
    ensures
        r@ == empty_file_line(),
{
    String::from_str("El archivo está vacío.\n")
}

/// Renders the suggestion part of one entry: the first (at most three)
/// replacements quoted and comma-joined, or "ninguna" when there are none.
pub fn format_suggestions(reps: &Vec<Replacement>) -> (r: String)
    ensures
        r@ == suggestions_spec(values_of(rep_views(reps@))),
{
    let ghost vals = values_of(rep_views(reps@));
    assert(vals.len() == reps@.len());
    if reps.len() == 0 {
        return String::from_str("ninguna");
    }
    let limit: usize = if reps.len() < 3 {
        reps.len()
    } else {
        3
    };
    let mut out = String::new();
    let mut j: usize = 0;
    while j < limit
        invariant
            j <= limit,
            limit <= reps@.len(),
            limit as int == shown_count(vals.len()),
            vals == values_of(rep_views(reps@)),
            vals.len() == reps@.len(),
            out@ == suggestion_list(vals, j as int),
        decreases limit - j,
    {
        if j > 0 {
            out.append(", ");
        }
        out.append("'");
        out.append(reps[j].value.as_str());
        out.append("'");
        proof {
            assert(vals[j as int] == reps@[j as int].value@);
            assert(out@ =~= suggestion_list(vals, j as int + 1));
        }
        j += 1;
    }
    out
}

/// Renders one numbered report entry for the match `m`, standing at
/// zero-based position `index` of the result.
pub fn render_entry(m: &Match, index: usize, text: &str) -> (r: String)
    requires
        index < usize::MAX,
    ensures
        r@ == entry_spec(m@, index as nat, text@),
{
    let mut out = usize_to_string(index + 1);
    out.append(". [");
    out.append(m.rule.category.name.as_str());
    out.append("]\n   Error: \"");
    let snippet = get_error_snippet(text, m.offset, m.length);
    out.append(snippet.as_str());
    out.append("\"\n   Sugerencias: ");
    let suggestions = format_suggestions(&m.replacements);
    out.append(suggestions.as_str());
    out.append("\n   Contexto: ...");
    out.append(m.context.text.as_str());
    out.append("...\n\n");
    proof {
        assert(out@ =~= entry_spec(m@, index as nat, text@));
    }
    out
}

/// Renders the whole report for `result` over the submitted text, exactly
/// as `report_spec` describes it.
pub fn render(result: &CheckResult, text: &str) -> (r: String)
    ensures
        r@ == report_spec(result@, text@),
{
    let n = result.matches.len();
    if n == 0 {
        return String::from_str("✓ No se encontraron errores\n");
    }
    let mut out = String::from_str("\n");
    let num = usize_to_string(n);
    out.append(num.as_str());
    out.append(" errores encontrados:\n\n");
    out.append("------------------------------------------------------------\n");
    proof {
        assert(result@.len() == n);
        assert(out@ =~= header_spec(n as nat));
    }
    let mut snips: Vec<String> = Vec::new();
    let mut i: usize = 0;
    while i < n
        invariant
            i <= n,
            n == result.matches@.len(),
            result@.len() == n,
            out@ == header_spec(n as nat) + entries_spec(result@, text@, i as int),
            views_of(snips@) == snippets_of(result@, text@).take(i as int),
            snips@.len() == i,
        decreases n - i,
    {
        let m = &result.matches[i];
        let e = render_entry(m, i, text);
        out.append(e.as_str());
        let snippet = get_error_snippet(text, m.offset, m.length);
        let ghost old_snips = snips@;
        snips.push(snippet);
        proof {
            assert(result@[i as int] == result.matches@[i as int]@);
            assert(out@ =~= header_spec(n as nat) + entries_spec(result@, text@, i as int + 1));
            assert(views_of(snips@) =~= views_of(old_snips).push(snippet@));
            assert(snippets_of(result@, text@).take(i as int + 1) =~= snippets_of(
                result@,
                text@,
            ).take(i as int).push(snippets_of(result@, text@)[i as int]));
            assert(snippets_of(result@, text@)[i as int] == snippet@);
        }
        i += 1;
    }
    out.append("------------------------------------------------------------\n");
    out.append("Resumen:\n  Palabras mal escritas (total): ");
    out.append(num.as_str());
    out.append("\n  Repeticiones de las mismas palabras: ");
    let dups = count_duplicates(&snips);
    let dstr = usize_to_string(dups);
    out.append(dstr.as_str());
    out.append("\n");
    proof {
        assert(views_of(snips@) =~= snippets_of(result@, text@));
        assert(out@ =~= report_spec(result@, text@));
    }
    out
}

} // verus!
