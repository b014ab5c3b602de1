use qazaq::alphabet::{fixed_replacement, is_capital, is_letter, vowel_class, Harmony};
use qazaq::convert;
use qazaq::harmony::{has_front_exception, is_all_caps, transliterate_run};

fn chars(s: &str) -> Vec<char> {
    s.chars().collect()
}

#[test]
fn text_without_cyrillic_is_unchanged() {
    let text = "Hello, world! 123 — ʻāäöü ✓";
    assert_eq!(text, convert(text));
}

#[test]
fn empty_text_is_empty() {
    assert_eq!("", convert(""));
}

#[test]
fn passthrough_text_keeps_its_place() {
    assert_eq!("1 mıy, 2 biy; 3", convert("1 ми, 2 би; 3"));
    assert_eq!("abcmıy", convert("abcми"));
    assert_eq!("\n\tjasaw\n", convert("\n\tжасау\n"));
}

#[test]
fn runs_are_converted_independently() {
    assert_eq!("biy mıy", convert("би ми"));
    assert_eq!("mıy biy", convert("ми би"));
}

#[test]
fn no_cyrillic_letter_is_left() {
    let lower = "аәбвгғдеёжзийкқлмнңоөпрстуұүфхһцчшщъыіьэюя";
    let upper = "АӘБВГҒДЕЁЖЗИЙКҚЛМНҢОӨПРСТУҰҮФХҺЦЧШЩЪЫІЬЭЮЯ";
    for text in [lower, upper, "ЖАЗУ жүзуші Бибарыс"] {
        let out = convert(text);
        assert!(out.chars().all(|c| !is_letter(c)), "{}", out);
    }
}

#[test]
fn whole_alphabet_lowercase() {
    assert_eq!(
        "aäbvgğdeyojziyykqlmnñoöprstiwuüfhhschcccıiäyuya",
        convert("аәбвгғдеёжзийкқлмнңоөпрстуұүфхһцчшщъыіьэюя")
    );
}

#[test]
fn all_caps_glide_is_spelled_in_capitals() {
    assert_eq!("JUW", convert("ЖУ"));
    assert_eq!("IYT", convert("ИТ"));
}

#[test]
fn mixed_case_glide_has_capital_initial() {
    assert_eq!("Iyt", convert("Ит"));
    assert_eq!("Iyrıyna", convert("Ирина"));
    assert_eq!("JUwa", convert("ЖУа"));
}

#[test]
fn all_caps_back_glide_after_vowel() {
    assert_eq!("JAZIW", convert("ЖАЗУ"));
    assert_eq!("JAW", convert("ЖАУ"));
}

#[test]
fn lowercase_back_glide_follows_last_vowel() {
    assert_eq!("Jazıw", convert("Жазу"));
    assert_eq!("keliw", convert("келу"));
}

#[test]
fn glide_alone_is_consonant() {
    assert_eq!("w", convert("у"));
    assert_eq!("W", convert("У"));
}

#[test]
fn silent_letters_vanish() {
    assert_eq!("obekt", convert("объект"));
    assert_eq!("", convert("ъь"));
}

#[test]
fn vowel_classes() {
    assert_eq!(Harmony::Back, vowel_class('ы'));
    assert_eq!(Harmony::Back, vowel_class('Ё'));
    assert_eq!(Harmony::Front, vowel_class('і'));
    assert_eq!(Harmony::Front, vowel_class('И'));
    assert_eq!(Harmony::NoVowel, vowel_class('у'));
    assert_eq!(Harmony::NoVowel, vowel_class('к'));
}

#[test]
fn letters_and_capitals() {
    assert!(is_letter('ң'));
    assert!(is_letter('Ё'));
    assert!(!is_letter('a'));
    assert!(!is_letter('ѣ'));
    assert!(is_capital('Ө'));
    assert!(!is_capital('ө'));
}

#[test]
fn fixed_replacements() {
    assert_eq!("Ch", fixed_replacement('Ч'));
    assert_eq!("cc", fixed_replacement('щ'));
    assert_eq!("", fixed_replacement('ь'));
    assert_eq!("ı", fixed_replacement('ы'));
}

#[test]
fn case_mode_of_runs() {
    let v = chars("ЖАЗУ");
    assert!(is_all_caps(&v, 0, v.len()));
    let v = chars("ЖАзУ");
    assert!(!is_all_caps(&v, 0, v.len()));
    assert!(!is_all_caps(&v, 1, 1));
}

#[test]
fn front_exceptions() {
    let v = chars("би");
    assert!(has_front_exception(&v, 0, v.len()));
    let v = chars("Бибарысқа");
    assert!(has_front_exception(&v, 0, v.len()));
    let v = chars("бибарыс");
    assert!(!has_front_exception(&v, 0, v.len()));
    let v = chars("ми");
    assert!(!has_front_exception(&v, 0, v.len()));
}

#[test]
fn front_glide_looks_ahead() {
    assert_eq!("biyik", transliterate_run(&chars("биік")));
    assert_eq!("bıyıl", transliterate_run(&chars("биыл")));
    assert_eq!("Biybarısqa", transliterate_run(&chars("Бибарысқа")));
}
