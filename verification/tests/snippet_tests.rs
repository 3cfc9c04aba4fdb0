use spanish_checker::numfmt::usize_to_string;
use spanish_checker::request::check_request_params;
use spanish_checker::snippet::get_error_snippet;

#[test]
fn snippet_inside_the_text() {
    assert_eq!(get_error_snippet("Yo tiene un gato.", 3, 5), "tiene");
}

#[test]
fn snippet_at_the_start() {
    assert_eq!(get_error_snippet("Yo tiene un gato.", 0, 2), "Yo");
}

#[test]
fn snippet_length_is_clamped_to_the_text() {
    assert_eq!(get_error_snippet("hola", 2, 99), "la");
}

#[test]
fn snippet_offset_past_the_end_is_empty() {
    assert_eq!(get_error_snippet("hola", 99, 2), "");
}

#[test]
fn snippet_offset_at_the_end_is_empty() {
    assert_eq!(get_error_snippet("hola", 4, 1), "");
}

#[test]
fn snippet_with_zero_length_is_empty() {
    assert_eq!(get_error_snippet("hola", 1, 0), "");
}

#[test]
fn snippet_of_empty_text_is_empty() {
    assert_eq!(get_error_snippet("", 0, 3), "");
}

#[test]
fn snippet_span_never_overflows() {
    assert_eq!(get_error_snippet("hola", usize::MAX, usize::MAX), "");
    assert_eq!(get_error_snippet("hola", 1, usize::MAX), "ola");
}

#[test]
fn snippet_counts_unicode_scalar_values() {
    // every accented vowel is one scalar value, not one byte
    assert_eq!(get_error_snippet("está vacío", 1, 3), "stá");
    assert_eq!(get_error_snippet("está vacío", 5, 5), "vacío");
}

#[test]
fn request_carries_text_language_and_all_categories() {
    let params = check_request_params("Yo tiene un gato.");
    assert_eq!(
        params,
        vec![
            (String::from("text"), String::from("Yo tiene un gato.")),
            (String::from("language"), String::from("es")),
            (String::from("enabledOnly"), String::from("false")),
        ]
    );
}

#[test]
fn numbers_render_in_decimal() {
    assert_eq!(usize_to_string(0), "0");
    assert_eq!(usize_to_string(7), "7");
    assert_eq!(usize_to_string(10), "10");
    assert_eq!(usize_to_string(907), "907");
    assert_eq!(usize_to_string(120034), "120034");
}
