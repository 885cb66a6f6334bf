use bootmenu::osrel::contains_nul;
use bootmenu::osrel::find_pretty_line;
use bootmenu::osrel::osrel_label;
use bootmenu::osrel::value_end;
use bootmenu::text::append;
use bootmenu::text::equal;
use bootmenu::text::has_prefix;
use bootmenu::text::has_suffix;
use bootmenu::text::to_vec;

#[test]
fn label_is_the_pretty_name_without_quotes() {
    let text = b"NAME=\"Alpine Linux\"\nID=alpine\nPRETTY_NAME=\"Alpine Linux v3.19\"\nHOME_URL=\"https://alpinelinux.org/\"\n";
    assert_eq!(osrel_label(text), Some(b"Alpine Linux v3.19".to_vec()));
    assert_eq!(osrel_label(b"PRETTY_NAME=\"Alpine\""), Some(b"Alpine".to_vec()));
    assert_eq!(osrel_label(b"PRETTY_NAME='x'"), Some(b"x".to_vec()));
}

#[test]
fn label_drops_first_and_last_byte_whatever_they_are() {
    assert_eq!(osrel_label(b"PRETTY_NAME=Alpine\n"), Some(b"lpin".to_vec()));
    assert_eq!(osrel_label(b"PRETTY_NAME=abc"), Some(b"b".to_vec()));
}

#[test]
fn label_needs_a_value_longer_than_two_bytes() {
    assert_eq!(osrel_label(b"PRETTY_NAME=\"\"\n"), None);
    assert_eq!(osrel_label(b"PRETTY_NAME=ab\n"), None);
    assert_eq!(osrel_label(b"PRETTY_NAME=\n"), None);
    assert_eq!(osrel_label(b"PRETTY_NAME="), None);
}

#[test]
fn label_is_cut_at_a_second_equals_sign() {
    assert_eq!(osrel_label(b"PRETTY_NAME=\"a=b\"\n"), None);
    assert_eq!(osrel_label(b"PRETTY_NAME=\"ab\"=c\n"), Some(b"ab".to_vec()));
    assert_eq!(osrel_label(b"PRETTY_NAME=\"abc=def\"\n"), Some(b"ab".to_vec()));
}

#[test]
fn label_comes_from_the_first_matching_line_only() {
    assert_eq!(osrel_label(b"PRETTY_NAME=\"One\"\nPRETTY_NAME=\"Two\"\n"), Some(b"One".to_vec()));
    assert_eq!(osrel_label(b"PRETTY_NAME=x\nPRETTY_NAME=\"Two\"\n"), None);
}

#[test]
fn label_key_must_start_a_line() {
    assert_eq!(osrel_label(b"MY_PRETTY_NAME=\"One\"\n"), None);
    assert_eq!(osrel_label(b" PRETTY_NAME=\"One\"\n"), None);
    assert_eq!(osrel_label(b"pretty_name=\"One\"\n"), None);
    assert_eq!(osrel_label(b"X=1\nMY_PRETTY_NAME=\"One\"\nPRETTY_NAME=\"Two\"\n"), Some(b"Two".to_vec()));
    assert_eq!(osrel_label(b""), None);
    assert_eq!(osrel_label(b"ID=alpine\n"), None);
}

#[test]
fn label_refuses_zero_bytes_and_bad_utf8() {
    assert_eq!(osrel_label(b"PRETTY_NAME=\"Alpine\"\n\0"), None);
    assert_eq!(osrel_label(b"\0PRETTY_NAME=\"Alpine\"\n"), None);
    assert_eq!(osrel_label(b"ID=\xff\nPRETTY_NAME=\"Alpine\"\n"), None);
    assert_eq!(osrel_label("PRETTY_NAME=\"Grüße\"\n".as_bytes()), Some("Grüße".as_bytes().to_vec()));
}

#[test]
fn label_that_would_split_a_character_is_refused() {
    assert_eq!(osrel_label("PRETTY_NAME=éab\n".as_bytes()), None);
    assert_eq!(osrel_label("PRETTY_NAME=abé\n".as_bytes()), None);
    assert_eq!(osrel_label("PRETTY_NAME=\"é\"\n".as_bytes()), Some("é".as_bytes().to_vec()));
}

#[test]
fn pretty_line_and_value_end_are_located() {
    let text = b"ID=x\nPRETTY_NAME=\"Alpine\"\nZ=1";
    assert_eq!(find_pretty_line(text), Some(5));
    assert_eq!(value_end(text, 17), 25);
    assert_eq!(value_end(text, 0), 2);
    assert_eq!(value_end(text, text.len()), text.len());
    assert_eq!(value_end(text, 28), text.len());
    assert_eq!(value_end(text, text.len() + 5), text.len() + 5);
    assert_eq!(find_pretty_line(b"PRETTY_NAME"), None);
    assert_eq!(find_pretty_line(b"PRETTY_NAME="), Some(0));
    assert!(contains_nul(b"a\0b"));
    assert!(!contains_nul(b"ab"));
    assert!(!contains_nul(b""));
}

#[test]
fn text_helpers_compare_bytes() {
    assert!(has_prefix(b"wrp0p1", b"wrp0"));
    assert!(has_prefix(b"wrp0", b""));
    assert!(!has_prefix(b"wrp", b"wrp0"));
    assert!(!has_prefix(b"wrp1p1", b"wrp0"));
    assert!(has_suffix(b"a.efi", b".efi"));
    assert!(has_suffix(b".efi", b".efi"));
    assert!(!has_suffix(b"a.EFI", b".efi"));
    assert!(!has_suffix(b"efi", b".efi"));
    assert!(equal(b"abc", b"abc"));
    assert!(!equal(b"abc", b"abd"));
    assert!(!equal(b"abc", b"ab"));
    assert!(equal(b"", b""));
    assert_eq!(to_vec(b"copy"), b"copy".to_vec());
    let mut text = b"ab".to_vec();
    append(&mut text, b"cd");
    append(&mut text, b"");
    assert_eq!(text, b"abcd".to_vec());
}
