use job_listing::text::chars_of;
use job_listing::text::is_whitespace;
use job_listing::text::same_text;
use job_listing::text::split;
use job_listing::text::split_trimmed;
use job_listing::text::trim;

fn texts(items: &[&str]) -> Vec<String> {
    items.iter().map(|item| item.to_string()).collect()
}

#[test]
fn whitespace_is_what_unicode_calls_white_space() {
    for code in 0..=0x10ffff_u32 {
        if let Some(c) = char::from_u32(code) {
            assert_eq!(is_whitespace(c), c.is_whitespace(), "U+{:04X}", code);
        }
    }
}

#[test]
fn whitespace_examples() {
    assert!(is_whitespace(' '));
    assert!(is_whitespace('\t'));
    assert!(is_whitespace('\n'));
    assert!(is_whitespace('\u{a0}'));
    assert!(is_whitespace('\u{3000}'));
    assert!(!is_whitespace('a'));
    assert!(!is_whitespace(','));
    assert!(!is_whitespace('\u{200b}'));
}

#[test]
fn chars_of_keeps_every_character() {
    assert_eq!(chars_of(""), Vec::<char>::new());
    assert_eq!(chars_of("Gü, x"), vec!['G', 'ü', ',', ' ', 'x']);
}

#[test]
fn same_text_compares_characters() {
    assert!(same_text("", ""));
    assert!(same_text("Geringfügig", "Geringfügig"));
    assert!(!same_text("Vollzeit", "Teilzeit"));
    assert!(!same_text("Vollzeit", "Vollzeit "));
    assert!(!same_text("Vollzeit", "vollzeit"));
    assert!(!same_text("a", ""));
}

#[test]
fn trim_cuts_white_space_at_both_ends_only() {
    assert_eq!(trim("  Wien \t\n"), "Wien");
    assert_eq!(trim("Wien"), "Wien");
    assert_eq!(trim(" Bad  Ischl "), "Bad  Ischl");
    assert_eq!(trim("\u{a0}Sankt Pölten\u{2003}"), "Sankt Pölten");
    assert_eq!(trim(""), "");
    assert_eq!(trim(" \t "), "");
}

#[test]
fn trim_agrees_with_std() {
    for text in ["", " ", "a", " a", "a ", "  a b  ", "\n\tx\r\n", "ü ", " \u{1680}ö\u{205f}"] {
        assert_eq!(trim(text), text.trim());
        assert_eq!(trim(&trim(text)), trim(text));
    }
}

#[test]
fn split_keeps_order_and_empty_pieces() {
    assert_eq!(split("Wien,Graz,Linz", ','), texts(&["Wien", "Graz", "Linz"]));
    assert_eq!(split("", ','), texts(&[""]));
    assert_eq!(split(",", ','), texts(&["", ""]));
    assert_eq!(split("a,,b,", ','), texts(&["a", "", "b", ""]));
    assert_eq!(split(" a , b ", ','), texts(&[" a ", " b "]));
    assert_eq!(split("no separator", ','), texts(&["no separator"]));
    assert_eq!(split("a;b,c", ';'), texts(&["a", "b,c"]));
}

#[test]
fn split_agrees_with_std_and_joins_back() {
    for text in ["", ",", "a", "a,b", ",a,", "ä,ö,ü", "Wien, Graz ,Linz", ",,,"] {
        let pieces = split(text, ',');
        let expected: Vec<String> = text.split(',').map(|piece| piece.to_string()).collect();
        assert_eq!(pieces, expected);
        assert_eq!(pieces.join(","), text);
        assert!(pieces.iter().all(|piece| !piece.contains(',')));
    }
}

#[test]
fn split_trimmed_strips_each_piece() {
    assert_eq!(split_trimmed("Wien, Graz ,\tLinz\n", ','), texts(&["Wien", "Graz", "Linz"]));
    assert_eq!(split_trimmed(" , ", ','), texts(&["", ""]));
    assert_eq!(split_trimmed("Bad Ischl", ','), texts(&["Bad Ischl"]));
}
