use spanish_checker::model::{Category, CheckResult, Context, Match, Replacement, Rule};
use spanish_checker::report::{empty_file_report, format_suggestions, render};

fn mk_match(offset: usize, length: usize, category: &str, reps: Vec<&str>, ctx: &str) -> Match {
    Match {
        message: String::from("mensaje"),
        offset,
        length,
        replacements: reps
            .into_iter()
            .map(|v| Replacement { value: String::from(v) })
            .collect(),
        context: Context { text: String::from(ctx), offset: 0, length: 0 },
        rule: Rule { category: Category { name: String::from(category) } },
    }
}

const DASHES: &str = "------------------------------------------------------------\n";

#[test]
fn no_matches_renders_only_the_no_errors_line() {
    let result = CheckResult { matches: vec![] };
    let out = render(&result, "Yo tiene un gato.");
    assert_eq!(out, "\u{2713} No se encontraron errores\n");
}

#[test]
fn empty_file_message_is_exact() {
    assert_eq!(empty_file_report(), "El archivo est\u{e1} vac\u{ed}o.\n");
}

#[test]
fn one_grammar_match_end_to_end() {
    let text = "Yo tiene un gato.";
    let m = mk_match(3, 5, "Grammar", vec!["tengo"], "Yo tiene un gato.");
    let result = CheckResult { matches: vec![m] };
    let out = render(&result, text);
    assert!(out.contains("1. [Grammar]"));
    assert!(out.contains("Error: \"tiene\""));
    assert!(out.contains("Sugerencias: 'tengo'"));
    assert!(out.contains("Palabras mal escritas (total): 1"));
    assert!(out.contains("Repeticiones de las mismas palabras: 0"));
}

#[test]
fn one_match_full_report_is_exact() {
    let text = "Yo tiene un gato.";
    let m = mk_match(3, 5, "Grammar", vec!["tengo"], "Yo tiene un gato.");
    let result = CheckResult { matches: vec![m] };
    let out = render(&result, text);
    let expected = format!(
        "\n1 errores encontrados:\n\n{DASHES}1. [Grammar]\n   Error: \"tiene\"\n   Sugerencias: 'tengo'\n   Contexto: ...Yo tiene un gato....\n\n{DASHES}Resumen:\n  Palabras mal escritas (total): 1\n  Repeticiones de las mismas palabras: 0\n"
    );
    assert_eq!(out, expected);
}

#[test]
fn suggestions_are_capped_at_three() {
    let text = "malo";
    let m = mk_match(0, 4, "Typography", vec!["a", "b", "c", "d", "e"], "malo");
    let result = CheckResult { matches: vec![m] };
    let out = render(&result, text);
    assert!(out.contains("   Sugerencias: 'a', 'b', 'c'\n"));
    assert!(!out.contains("'d'"));
    assert!(!out.contains("'e'"));
}

#[test]
fn no_replacements_renders_ninguna() {
    let reps: Vec<Replacement> = vec![];
    assert_eq!(format_suggestions(&reps), "ninguna");
}

#[test]
fn two_replacements_render_both() {
    let reps = vec![
        Replacement { value: String::from("uno") },
        Replacement { value: String::from("dos") },
    ];
    assert_eq!(format_suggestions(&reps), "'uno', 'dos'");
}

#[test]
fn five_replacements_render_first_three() {
    let reps = vec![
        Replacement { value: String::from("a") },
        Replacement { value: String::from("b") },
        Replacement { value: String::from("c") },
        Replacement { value: String::from("d") },
        Replacement { value: String::from("e") },
    ];
    assert_eq!(format_suggestions(&reps), "'a', 'b', 'c'");
}

#[test]
fn single_occurrence_counts_no_repetition() {
    let text = "aa bb";
    let result = CheckResult { matches: vec![mk_match(0, 2, "Spelling", vec![], "aa bb")] };
    let out = render(&result, text);
    assert!(out.contains("Repeticiones de las mismas palabras: 0"));
}

#[test]
fn two_equal_snippets_count_one_repetition() {
    let text = "aa aa";
    let result = CheckResult {
        matches: vec![
            mk_match(0, 2, "Spelling", vec![], "aa aa"),
            mk_match(3, 2, "Spelling", vec![], "aa aa"),
        ],
    };
    let out = render(&result, text);
    assert!(out.contains("Palabras mal escritas (total): 2"));
    assert!(out.contains("Repeticiones de las mismas palabras: 1"));
}

#[test]
fn three_equal_snippets_count_two_repetitions() {
    let text = "aa aa aa";
    let result = CheckResult {
        matches: vec![
            mk_match(0, 2, "Spelling", vec![], "aa aa aa"),
            mk_match(3, 2, "Spelling", vec![], "aa aa aa"),
            mk_match(6, 2, "Spelling", vec![], "aa aa aa"),
        ],
    };
    let out = render(&result, text);
    assert!(out.contains("Palabras mal escritas (total): 3"));
    assert!(out.contains("Repeticiones de las mismas palabras: 2"));
}

#[test]
fn distinct_snippets_do_not_count_as_repetitions() {
    let text = "aa bb aa";
    let result = CheckResult {
        matches: vec![
            mk_match(0, 2, "Spelling", vec![], "aa bb aa"),
            mk_match(3, 2, "Spelling", vec![], "aa bb aa"),
            mk_match(6, 2, "Spelling", vec![], "aa bb aa"),
        ],
    };
    let out = render(&result, text);
    assert!(out.contains("Palabras mal escritas (total): 3"));
    assert!(out.contains("Repeticiones de las mismas palabras: 1"));
}

#[test]
fn match_count_renders_in_decimal() {
    let text = "xy";
    let matches: Vec<Match> = (0..12).map(|_| mk_match(0, 2, "Spelling", vec![], "xy")).collect();
    let result = CheckResult { matches };
    let out = render(&result, text);
    assert!(out.starts_with("\n12 errores encontrados:\n\n"));
    assert!(out.contains("12. [Spelling]"));
    assert!(out.contains("Palabras mal escritas (total): 12"));
    assert!(out.contains("Repeticiones de las mismas palabras: 11"));
}
