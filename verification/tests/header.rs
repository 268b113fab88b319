use figlet_rs::FIGfont;
use hello_bedrock::header::render_header;

#[test]
fn header_of_the_empty_string_is_none() {
    assert_eq!(render_header(""), None);
}

#[test]
fn header_of_undrawable_text_is_none() {
    assert_eq!(render_header("\u{1F600}"), None);
}

#[test]
fn header_is_the_standard_figure() {
    let font = FIGfont::standard().unwrap();
    for text in ["Guardrails Example", "Knowledgebases ", "A", " "] {
        let expected = font.convert(text).unwrap().to_string();
        assert_eq!(render_header(text), Some(expected));
    }
}

#[test]
fn header_of_one_letter_exactly() {
    let expected = [
        "   ___  ",
        "  / _ \\ ",
        " | | | |",
        " | |_| |",
        "  \\___/ ",
        "        ",
        "",
    ]
    .join("\n");
    assert_eq!(render_header("O"), Some(expected));
}

#[test]
fn header_is_six_lines_and_not_the_text_itself() {
    let banner = render_header("Hi").unwrap();
    assert_ne!(banner, "Hi");
    assert_eq!(banner.lines().count(), 6);
    assert!(banner.ends_with('\n'));
}

#[test]
fn header_skips_characters_that_the_font_lacks() {
    assert_eq!(render_header("a\u{1F600}b"), render_header("ab"));
}
