use qazaq::convert;

#[test]
fn conversion_from_cyrillic_to_latin() {
    assert_eq!("Ayttım sälem, Qalamqas!", convert("Айттым сәлем, Қаламқас!"));
}

#[test]
fn conversion_from_cyrillic_to_latin_miy() {
    assert_eq!("mıy", convert("ми"));
}

#[test]
fn conversion_from_cyrillic_to_latin_biy() {
    assert_eq!("biy", convert("би"));
}

#[test]
fn conversion_from_cyrillic_to_latin_biybaris() {
    assert_eq!("Biybarıs", convert("Бибарыс"));
}

#[test]
fn conversion_from_cyrillic_to_latin_biyil() {
    assert_eq!("bıyıl", convert("биыл"));
}

#[test]
fn conversion_from_cyrillic_to_latin_biyik() {
    assert_eq!("biyik", convert("биік"));
}

#[test]
fn conversion_from_cyrillic_to_latin_telediydar() {
    assert_eq!("teledıydar", convert("теледидар"));
}

#[test]
fn conversion_from_cyrillic_to_latin_biylew() {
    assert_eq!("biylew", convert("билеу"));
}

#[test]
fn conversion_from_cyrillic_to_latin_suw() {
    assert_eq!("suw", convert("су"));
}

#[test]
fn conversion_from_cyrillic_to_latin_juziwci() {
    assert_eq!("jüziwci", convert("жүзуші"));
}

#[test]
fn conversion_from_cyrillic_to_latin_jasaw() {
    assert_eq!("jasaw", convert("жасау"));
}

#[test]
fn conversion_from_cyrillic_to_latin_juwiw() {
    assert_eq!("juwıw", convert("жуу"));
}

#[test]
fn conversion_from_cyrillic_to_latin_awruw() {
    assert_eq!("awrıw", convert("ауру"));
}

#[test]
fn conversion_from_cyrillic_to_latin_waqit() {
    assert_eq!("waqıt", convert("уақыт"));
}
