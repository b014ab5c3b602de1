//! The alphabet: which characters are letters of the Qazaq Cyrillic script,
//! which of them are capitals, how they group into harmony classes, and
//! the fixed Latin spelling of every letter that does not depend on context.
use vstd::prelude::*;

verus! {

/// Harmony class of a letter.
#[derive(Clone, Copy, PartialEq, Eq, Structural, Debug)]
pub enum Harmony {
    /// Not a vowel (or a glide, which is resolved by context).
    NoVowel,
    /// A back ("hard") vowel.
    Back,
    /// A front ("soft") vowel.
    Front,
}

/// A letter of the Qazaq Cyrillic alphabet: the basic Cyrillic block
/// `А`..`я` plus `Ё`, `ё`, `І`, `і` and the Qazaq-specific letters.
pub open spec fn spec_is_letter(c: char) -> bool {
    ('\u{410}' <= c && c <= '\u{44F}')
        || c == 'Ё'
        || c == 'ё'
        || c == 'І'
        || c == 'і'
        || c == 'Ғ'
        || c == 'ғ'
        || c == 'Қ'
        || c == 'қ'
        || c == 'Ң'
        || c == 'ң'
        || c == 'Ү'
        || c == 'ү'
        || c == 'Ұ'
        || c == 'ұ'
        || c == 'Һ'
        || c == 'һ'
        || c == 'Ә'
        || c == 'ә'
        || c == 'Ө'
        || c == 'ө'
}

/// A capital letter of the Qazaq Cyrillic alphabet.
pub open spec fn spec_is_capital(c: char) -> bool {
    ('\u{410}' <= c && c <= '\u{42F}')
        || c == 'Ё'
        || c == 'І'
        || c == 'Ғ'
        || c == 'Қ'
        || c == 'Ң'
        || c == 'Ү'
        || c == 'Ұ'
        || c == 'Һ'
        || c == 'Ә'
        || c == 'Ө'
}

/// The two glide letters, whose spelling depends on their context.
pub open spec fn is_glide(c: char) -> bool {
    c == 'И' || c == 'и' || c == 'У' || c == 'у'
}

pub open spec fn is_back_vowel(c: char) -> bool {
    c == 'А'
    || c == 'а'
    || c == 'Ё'
    || c == 'ё'
    || c == 'О'
    || c == 'о'
    || c == 'Ұ'
    || c == 'ұ'
    || c == 'Ы'
    || c == 'ы'
    || c == 'Ю'
    || c == 'ю'
    || c == 'Я'
    || c == 'я'
}

pub open spec fn is_front_vowel(c: char) -> bool {
    c == 'Ә'
    || c == 'ә'
    || c == 'Е'
    || c == 'е'
    || c == 'И'
    || c == 'и'
    || c == 'Ө'
    || c == 'ө'
    || c == 'Ү'
    || c == 'ү'
    || c == 'І'
    || c == 'і'
    || c == 'Э'
    || c == 'э'
}

pub open spec fn harmony_of(c: char) -> Harmony {
    if is_back_vowel(c) {
        Harmony::Back
    } else if is_front_vowel(c) {
        Harmony::Front
    } else {
        Harmony::NoVowel
    }
}

/// The context-free Latin spelling of a character. Glides and characters
/// outside the alphabet are not spelled by this table; they map to themselves.
pub open spec fn fixed_latin(c: char) -> Seq<char> {
    match c {
        'А' => seq!['A'],
        'а' => seq!['a'],
        'Ә' => seq!['Ä'],
        'ә' => seq!['ä'],
        'Б' => seq!['B'],
        'б' => seq!['b'],
        'В' => seq!['V'],
        'в' => seq!['v'],
        'Г' => seq!['G'],
        'г' => seq!['g'],
        'Ғ' => seq!['Ğ'],
        'ғ' => seq!['ğ'],
        'Д' => seq!['D'],
        'д' => seq!['d'],
        'Е' => seq!['E'],
        'е' => seq!['e'],
        'Ё' => seq!['Y', 'o'],
        'ё' => seq!['y', 'o'],
        'Ж' => seq!['J'],
        'ж' => seq!['j'],
        'З' => seq!['Z'],
        'з' => seq!['z'],
        'Й' => seq!['Y'],
        'й' => seq!['y'],
        'К' => seq!['K'],
        'к' => seq!['k'],
        'Қ' => seq!['Q'],
        'қ' => seq!['q'],
        'Л' => seq!['L'],
        'л' => seq!['l'],
        'М' => seq!['M'],
        'м' => seq!['m'],
        'Н' => seq!['N'],
        'н' => seq!['n'],
        'Ң' => seq!['Ñ'],
        'ң' => seq!['ñ'],
        'О' => seq!['O'],
        'о' => seq!['o'],
        'Ө' => seq!['Ö'],
        'ө' => seq!['ö'],
        'П' => seq!['P'],
        'п' => seq!['p'],
        'Р' => seq!['R'],
        'р' => seq!['r'],
        'С' => seq!['S'],
        'с' => seq!['s'],
        'Т' => seq!['T'],
        'т' => seq!['t'],
        'Ұ' => seq!['U'],
        'ұ' => seq!['u'],
        'Ү' => seq!['Ü'],
        'ү' => seq!['ü'],
        'Ф' => seq!['F'],
        'ф' => seq!['f'],
        'Х' => seq!['H'],
        'х' => seq!['h'],
        'Һ' => seq!['H'],
        'һ' => seq!['h'],
        'Ц' => seq!['S'],
        'ц' => seq!['s'],
        'Ч' => seq!['C', 'h'],
        'ч' => seq!['c', 'h'],
        'Ш' => seq!['C'],
        'ш' => seq!['c'],
        'Щ' => seq!['C', 'c'],
        'щ' => seq!['c', 'c'],
        'Ъ' => seq![],
        'ъ' => seq![],
        'Ы' => seq!['I'],
        'ы' => seq!['ı'],
        'І' => seq!['I'],
        'і' => seq!['i'],
        'Ь' => seq![],
        'ь' => seq![],
        'Э' => seq!['Ä'],
        'э' => seq!['ä'],
        'Ю' => seq!['Y', 'u'],
        'ю' => seq!['y', 'u'],
        'Я' => seq!['Y', 'a'],
        'я' => seq!['y', 'a'],
        _ => seq![c],
    }
}

/// No character of `t` is a letter of the Cyrillic alphabet.
pub open spec fn letter_free(t: Seq<char>) -> bool {
    forall|k: int| 0 <= k < t.len() ==> !spec_is_letter(#[trigger] t[k])
}

pub fn is_letter(c: char) -> (r: bool)
    ensures
        r == spec_is_letter(c),
{
    ('\u{410}' <= c && c <= '\u{44F}')
        || c == 'Ё'
        || c == 'ё'
        || c == 'І'
        || c == 'і'
        || c == 'Ғ'
        || c == 'ғ'
        || c == 'Қ'
        || c == 'қ'
        || c == 'Ң'
        || c == 'ң'
        || c == 'Ү'
        || c == 'ү'
        || c == 'Ұ'
        || c == 'ұ'
        || c == 'Һ'
        || c == 'һ'
        || c == 'Ә'
        || c == 'ә'
        || c == 'Ө'
        || c == 'ө'
}

pub fn is_capital(c: char) -> (r: bool)
    ensures
        r == spec_is_capital(c),
{
    ('\u{410}' <= c && c <= '\u{42F}')
        || c == 'Ё'
        || c == 'І'
        || c == 'Ғ'
        || c == 'Қ'
        || c == 'Ң'
        || c == 'Ү'
        || c == 'Ұ'
        || c == 'Һ'
        || c == 'Ә'
        || c == 'Ө'
}

/// The harmony class of a letter; glides and consonants are `NoVowel`,
/// except the front glide `И`/`и`, which counts as a front vowel.
pub fn vowel_class(c: char) -> (r: Harmony)
    ensures
        r == harmony_of(c),
{
    if c == 'А'
        || c == 'а'
        || c == 'Ё'
        || c == 'ё'
        || c == 'О'
        || c == 'о'
        || c == 'Ұ'
        || c == 'ұ'
        || c == 'Ы'
        || c == 'ы'
        || c == 'Ю'
        || c == 'ю'
        || c == 'Я'
        || c == 'я' {
        Harmony::Back
    } else if c == 'Ә'
        || c == 'ә'
        || c == 'Е'
        || c == 'е'
        || c == 'И'
        || c == 'и'
        || c == 'Ө'
        || c == 'ө'
        || c == 'Ү'
        || c == 'ү'
        || c == 'І'
        || c == 'і'
        || c == 'Э'
        || c == 'э' {
        Harmony::Front
    } else {
        Harmony::NoVowel
    }
}

/// The Latin spelling of a letter that is not a glide.
pub fn fixed_replacement(c: char) -> (r: &'static str)
    requires
        spec_is_letter(c),
        !is_glide(c),
    ensures
        r@ == fixed_latin(c),
{
    match c {
        'А' => {
            proof { reveal_strlit("A"); }
            "A"
        },
        'а' => {
            proof { reveal_strlit("a"); }
            "a"
        },
        'Ә' => {
            proof { reveal_strlit("Ä"); }
            "Ä"
        },
        'ә' => {
            proof { reveal_strlit("ä"); }
            "ä"
        },
        'Б' => {
            proof { reveal_strlit("B"); }
            "B"
        },
        'б' => {
            proof { reveal_strlit("b"); }
            "b"
        },
        'В' => {
            proof { reveal_strlit("V"); }
            "V"
        },
        'в' => {
            proof { reveal_strlit("v"); }
            "v"
        },
        'Г' => {
            proof { reveal_strlit("G"); }
            "G"
        },
        'г' => {
            proof { reveal_strlit("g"); }
            "g"
        },
        'Ғ' => {
            proof { reveal_strlit("Ğ"); }
            "Ğ"
        },
        'ғ' => {
            proof { reveal_strlit("ğ"); }
            "ğ"
        },
        'Д' => {
            proof { reveal_strlit("D"); }
            "D"
        },
        'д' => {
            proof { reveal_strlit("d"); }
            "d"
        },
        'Е' => {
            proof { reveal_strlit("E"); }
            "E"
        },
        'е' => {
            proof { reveal_strlit("e"); }
            "e"
        },
        'Ё' => {
            proof { reveal_strlit("Yo"); }
            "Yo"
        },
        'ё' => {
            proof { reveal_strlit("yo"); }
            "yo"
        },
        'Ж' => {
            proof { reveal_strlit("J"); }
            "J"
        },
        'ж' => {
            proof { reveal_strlit("j"); }
            "j"
        },
        'З' => {
            proof { reveal_strlit("Z"); }
            "Z"
        },
        'з' => {
            proof { reveal_strlit("z"); }
            "z"
        },
        'Й' => {
            proof { reveal_strlit("Y"); }
            "Y"
        },
        'й' => {
            proof { reveal_strlit("y"); }
            "y"
        },
        'К' => {
            proof { reveal_strlit("K"); }
            "K"
        },
        'к' => {
            proof { reveal_strlit("k"); }
            "k"
        },
        'Қ' => {
            proof { reveal_strlit("Q"); }
            "Q"
        },
        'қ' => {
            proof { reveal_strlit("q"); }
            "q"
        },
        'Л' => {
            proof { reveal_strlit("L"); }
            "L"
        },
        'л' => {
            proof { reveal_strlit("l"); }
            "l"
        },
        'М' => {
            proof { reveal_strlit("M"); }
            "M"
        },
        'м' => {
            proof { reveal_strlit("m"); }
            "m"
        },
        'Н' => {
            proof { reveal_strlit("N"); }
            "N"
        },
        'н' => {
            proof { reveal_strlit("n"); }
            "n"
        },
        'Ң' => {
            proof { reveal_strlit("Ñ"); }
            "Ñ"
        },
        'ң' => {
            proof { reveal_strlit("ñ"); }
            "ñ"
        },
        'О' => {
            proof { reveal_strlit("O"); }
            "O"
        },
        'о' => {
            proof { reveal_strlit("o"); }
            "o"
        },
        'Ө' => {
            proof { reveal_strlit("Ö"); }
            "Ö"
        },
        'ө' => {
            proof { reveal_strlit("ö"); }
            "ö"
        },
        'П' => {
            proof { reveal_strlit("P"); }
            "P"
        },
        'п' => {
            proof { reveal_strlit("p"); }
            "p"
        },
        'Р' => {
            proof { reveal_strlit("R"); }
            "R"
        },
        'р' => {
            proof { reveal_strlit("r"); }
            "r"
        },
        'С' => {
            proof { reveal_strlit("S"); }
            "S"
        },
        'с' => {
            proof { reveal_strlit("s"); }
            "s"
        },
        'Т' => {
            proof { reveal_strlit("T"); }
            "T"
        },
        'т' => {
            proof { reveal_strlit("t"); }
            "t"
        },
        'Ұ' => {
            proof { reveal_strlit("U"); }
            "U"
        },
        'ұ' => {
            proof { reveal_strlit("u"); }
            "u"
        },
        'Ү' => {
            proof { reveal_strlit("Ü"); }
            "Ü"
        },
        'ү' => {
            proof { reveal_strlit("ü"); }
            "ü"
        },
        'Ф' => {
            proof { reveal_strlit("F"); }
            "F"
        },
        'ф' => {
            proof { reveal_strlit("f"); }
            "f"
        },
        'Х' => {
            proof { reveal_strlit("H"); }
            "H"
        },
        'х' => {
            proof { reveal_strlit("h"); }
            "h"
        },
        'Һ' => {
            proof { reveal_strlit("H"); }
            "H"
        },
        'һ' => {
            proof { reveal_strlit("h"); }
            "h"
        },
        'Ц' => {
            proof { reveal_strlit("S"); }
            "S"
        },
        'ц' => {
            proof { reveal_strlit("s"); }
            "s"
        },
        'Ч' => {
            proof { reveal_strlit("Ch"); }
            "Ch"
        },
        'ч' => {
            proof { reveal_strlit("ch"); }
            "ch"
        },
        'Ш' => {
            proof { reveal_strlit("C"); }
            "C"
        },
        'ш' => {
            proof { reveal_strlit("c"); }
            "c"
        },
        'Щ' => {
            proof { reveal_strlit("Cc"); }
            "Cc"
        },
        'щ' => {
            proof { reveal_strlit("cc"); }
            "cc"
        },
        'Ъ' => {
            proof { reveal_strlit(""); }
            ""
        },
        'ъ' => {
            proof { reveal_strlit(""); }
            ""
        },
        'Ы' => {
            proof { reveal_strlit("I"); }
            "I"
        },
        'ы' => {
            proof { reveal_strlit("ı"); }
            "ı"
        },
        'І' => {
            proof { reveal_strlit("I"); }
            "I"
        },
        'і' => {
            proof { reveal_strlit("i"); }
            "i"
        },
        'Ь' => {
            proof { reveal_strlit(""); }
            ""
        },
        'ь' => {
            proof { reveal_strlit(""); }
            ""
        },
        'Э' => {
            proof { reveal_strlit("Ä"); }
            "Ä"
        },
        'э' => {
            proof { reveal_strlit("ä"); }
            "ä"
        },
        'Ю' => {
            proof { reveal_strlit("Yu"); }
            "Yu"
        },
        'ю' => {
            proof { reveal_strlit("yu"); }
            "yu"
        },
        'Я' => {
            proof { reveal_strlit("Ya"); }
            "Ya"
        },
        'я' => {
            proof { reveal_strlit("ya"); }
            "ya"
        },
        _ => {
            proof {
                assert(false);
            }
            ""
        },
    }
}

/// The table spells no character with a Cyrillic letter.
pub proof fn lemma_fixed_latin_letter_free(c: char)
    requires
        !is_glide(c),
    ensures
        letter_free(fixed_latin(c)),
{
}

} // verus!
