//! Transliteration of one run of Cyrillic letters. The run is scanned left
//! to right; a small state tracks vowel harmony and resolves the two glide
//! letters `и` and `у`.
use vstd::prelude::*;
use crate::alphabet::{
    Harmony, spec_is_letter, spec_is_capital, is_glide, harmony_of, fixed_latin, letter_free,
    is_capital, vowel_class, fixed_replacement, lemma_fixed_latin_letter_free,
};

verus! {

/// What the scan of a run remembers between letters.
#[derive(Clone, Copy, PartialEq, Eq, Structural, Debug)]
pub struct ScanState {
    /// The letter just before was a vowel (a glide `и` included).
    pub last_was_vowel: bool,
    /// The most recent vowel was a front vowel.
    pub last_front: bool,
    /// A vowel has already occurred in the run.
    pub vowel_seen: bool,
}

pub open spec fn initial_state() -> ScanState {
    ScanState { last_was_vowel: false, last_front: false, vowel_seen: false }
}

/// Some letter strictly after position `i` of the run is a front vowel.
pub open spec fn front_after(run: Seq<char>, i: int) -> bool {
    exists|j: int| i < j < run.len() && harmony_of(#[trigger] run[j]) == Harmony::Front
}

/// The fixed exceptions that force the front spelling of `и`: a run that
/// ends in `би`, or one that begins with the name `Бибарыс`.
pub open spec fn front_exception(run: Seq<char>) -> bool {
    (run.len() >= 2 && run[run.len() - 2] == 'б' && run[run.len() - 1] == 'и')
        || (run.len() >= 7 && run.take(7) == seq!['Б', 'и', 'б', 'а', 'р', 'ы', 'с'])
}

/// Every letter of the (non-empty) run is a capital.
pub open spec fn all_caps(run: Seq<char>) -> bool {
    run.len() > 0 && forall|k: int| 0 <= k < run.len() ==> spec_is_capital(#[trigger] run[k])
}

/// The back glide `у`/`У` stands as the consonant `w`: first in the run,
/// or right after a vowel.
pub open spec fn glide_is_consonant(at_start: bool, st: ScanState) -> bool {
    at_start || st.last_was_vowel
}

/// The Latin spelling of letter `c` in the context given.
pub open spec fn fragment(
    c: char,
    at_start: bool,
    st: ScanState,
    caps: bool,
    use_front: bool,
) -> Seq<char> {
    if c == 'и' {
        if use_front { seq!['i', 'y'] } else { seq!['ı', 'y'] }
    } else if c == 'И' {
        if caps { seq!['I', 'Y'] } else { seq!['I', 'y'] }
    } else if c == 'у' {
        if glide_is_consonant(at_start, st) {
            seq!['w']
        } else if !st.vowel_seen {
            seq!['u', 'w']
        } else if st.last_front {
            seq!['i', 'w']
        } else {
            seq!['ı', 'w']
        }
    } else if c == 'У' {
        if glide_is_consonant(at_start, st) {
            seq!['W']
        } else if !st.vowel_seen {
            if caps { seq!['U', 'W'] } else { seq!['U', 'w'] }
        } else {
            if caps { seq!['I', 'W'] } else { seq!['I', 'w'] }
        }
    } else {
        fixed_latin(c)
    }
}

/// The state after letter `c`.
pub open spec fn next_state(c: char, at_start: bool, st: ScanState) -> ScanState {
    if c == 'у' || c == 'У' {
        if glide_is_consonant(at_start, st) {
            ScanState { last_was_vowel: false, ..st }
        } else if !st.vowel_seen {
            ScanState { last_was_vowel: false, last_front: false, vowel_seen: true }
        } else {
            ScanState { last_was_vowel: false, ..st }
        }
    } else if harmony_of(c) == Harmony::Back {
        ScanState { last_was_vowel: true, last_front: false, vowel_seen: true }
    } else if harmony_of(c) == Harmony::Front {
        ScanState { last_was_vowel: true, last_front: true, vowel_seen: true }
    } else {
        ScanState { last_was_vowel: false, ..st }
    }
}

/// The state of the scan when it reaches position `i` of the run.
pub open spec fn state_before(run: Seq<char>, i: nat) -> ScanState
    decreases i,
{
    if i == 0 {
        initial_state()
    } else {
        next_state(run[i - 1], i - 1 == 0, state_before(run, (i - 1) as nat))
    }
}

/// The front spelling of `и` is taken at position `i`.
pub open spec fn use_front(run: Seq<char>, i: int) -> bool {
    front_exception(run) || front_after(run, i)
}

/// The Latin spelling of the letter at position `i` of the run.
pub open spec fn fragment_at(run: Seq<char>, i: int) -> Seq<char> {
    fragment(run[i], i == 0, state_before(run, i as nat), all_caps(run), use_front(run, i))
}

/// The spelling of the first `n` letters of the run.
pub open spec fn latin_prefix(run: Seq<char>, n: nat) -> Seq<char>
    decreases n,
{
    if n == 0 {
        seq![]
    } else {
        latin_prefix(run, (n - 1) as nat) + fragment_at(run, n - 1)
    }
}

/// The Latin spelling of a whole run.
pub open spec fn transliterate(run: Seq<char>) -> Seq<char> {
    latin_prefix(run, run.len())
}

/// No Cyrillic letter is left in the spelling of a run.
pub proof fn lemma_transliterate_letter_free(run: Seq<char>)
    ensures
        letter_free(transliterate(run)),
{
    lemma_prefix_letter_free(run, run.len());
}

proof fn lemma_prefix_letter_free(run: Seq<char>, n: nat)
    ensures
        letter_free(latin_prefix(run, n)),
    decreases n,
{
    if n > 0 {
        lemma_prefix_letter_free(run, (n - 1) as nat);
        let a = latin_prefix(run, (n - 1) as nat);
        let f = fragment_at(run, n - 1);
        if !is_glide(run[n - 1]) {
            lemma_fixed_latin_letter_free(run[n - 1]);
        }
        assert(letter_free(f));
        assert forall|k: int| 0 <= k < (a + f).len() implies !spec_is_letter(
            #[trigger] (a + f)[k],
        ) by {
            if k >= a.len() {
                assert((a + f)[k] == f[k - a.len()]);
            }
        }
    }
}

pub open spec fn is_upper_latin(c: char) -> bool {
    'A' <= c && c <= 'Z'
}

pub open spec fn is_lower_latin(c: char) -> bool {
    'a' <= c && c <= 'z'
}

/// A capital glide spelled with two letters is spelled all in capitals
/// when the whole run is in capitals, and with a capital initial otherwise.
pub proof fn lemma_case_consistency(run: Seq<char>, i: int)
    requires
        0 <= i < run.len(),
        run[i] == 'И' || run[i] == 'У',
        fragment_at(run, i).len() == 2,
    ensures
        is_upper_latin(fragment_at(run, i)[0]),
        all_caps(run) ==> is_upper_latin(fragment_at(run, i)[1]),
        !all_caps(run) ==> is_lower_latin(fragment_at(run, i)[1]),
{
}

/// Whether every letter of `chars[start..end]` is a capital.
pub fn is_all_caps(chars: &Vec<char>, start: usize, end: usize) -> (r: bool)
    requires
        start <= end <= chars.len(),
    ensures
        r == all_caps(chars@.subrange(start as int, end as int)),
{
    let ghost run = chars@.subrange(start as int, end as int);
    if start == end {
        return false;
    }
    let mut i = start;
    while i < end
        invariant
            start <= i <= end <= chars.len(),
            run == chars@.subrange(start as int, end as int),
            forall|k: int| 0 <= k < i - start ==> spec_is_capital(#[trigger] run[k]),
        decreases end - i,
    {
        if !is_capital(chars[i]) {
            assert(!spec_is_capital(run[i - start]));
            return false;
        }
        i += 1;
    }
    true
}

/// Whether one of the fixed exceptions applies to the run `chars[start..end]`.
pub fn has_front_exception(chars: &Vec<char>, start: usize, end: usize) -> (r: bool)
    requires
        start <= end <= chars.len(),
    ensures
        r == front_exception(chars@.subrange(start as int, end as int)),
{
    let ghost run = chars@.subrange(start as int, end as int);
    let len = end - start;
    let ends_bi = len >= 2 && chars[end - 2] == 'б' && chars[end - 1] == 'и';
    let ghost name = seq!['Б', 'и', 'б', 'а', 'р', 'ы', 'с'];
    let starts_name = len >= 7 && chars[start] == 'Б' && chars[start + 1] == 'и'
        && chars[start + 2] == 'б' && chars[start + 3] == 'а' && chars[start + 4] == 'р'
        && chars[start + 5] == 'ы' && chars[start + 6] == 'с';
    proof {
        if len >= 7 {
            assert(starts_name <==> run.take(7) =~= name);
        }
    }
    ends_bi || starts_name
}

/// Whether a front vowel follows position `i` within the run ending at `end`.
fn front_vowel_after(chars: &Vec<char>, start: usize, i: usize, end: usize) -> (r: bool)
    requires
        start <= i < end <= chars.len(),
    ensures
        r == front_after(chars@.subrange(start as int, end as int), i - start),
{
    let ghost run = chars@.subrange(start as int, end as int);
    let mut j = i + 1;
    while j < end
        invariant
            i < j <= end <= chars.len(),
            start <= i,
            run == chars@.subrange(start as int, end as int),
            forall|k: int|
                i - start < k < j - start ==> harmony_of(#[trigger] run[k]) != Harmony::Front,
        decreases end - j,
    {
        if vowel_class(chars[j]) == Harmony::Front {
            assert(harmony_of(run[j - start]) == Harmony::Front);
            return true;
        }
        j += 1;
    }
    false
}

fn next_scan_state(c: char, at_start: bool, st: ScanState) -> (r: ScanState)
    ensures
        r == next_state(c, at_start, st),
{
    if c == 'у' || c == 'У' {
        if at_start || st.last_was_vowel {
            ScanState { last_was_vowel: false, ..st }
        } else if !st.vowel_seen {
            ScanState { last_was_vowel: false, last_front: false, vowel_seen: true }
        } else {
            ScanState { last_was_vowel: false, ..st }
        }
    } else {
        match vowel_class(c) {
            Harmony::Back => ScanState { last_was_vowel: true, last_front: false, vowel_seen: true },
            Harmony::Front => ScanState { last_was_vowel: true, last_front: true, vowel_seen: true },
            Harmony::NoVowel => ScanState { last_was_vowel: false, ..st },
        }
    }
}

fn glide_replacement(c: char, at_start: bool, st: ScanState, caps: bool, front: bool) -> (r:
    &'static str)
    requires
        is_glide(c),
    ensures
        r@ == fragment(c, at_start, st, caps, front),
{
    if c == 'и' {
        if front {
            proof { reveal_strlit("iy"); }
            "iy"
        } else {
            proof { reveal_strlit("ıy"); }
            "ıy"
        }
    } else if c == 'И' {
        if caps {
            proof { reveal_strlit("IY"); }
            "IY"
        } else {
            proof { reveal_strlit("Iy"); }
            "Iy"
        }
    } else if c == 'у' {
        if at_start || st.last_was_vowel {
            proof { reveal_strlit("w"); }
            "w"
        } else if !st.vowel_seen {
            proof { reveal_strlit("uw"); }
            "uw"
        } else if st.last_front {
            proof { reveal_strlit("iw"); }
            "iw"
        } else {
            proof { reveal_strlit("ıw"); }
            "ıw"
        }
    } else {
        if at_start || st.last_was_vowel {
            proof { reveal_strlit("W"); }
            "W"
        } else if !st.vowel_seen {
            if caps {
                proof { reveal_strlit("UW"); }
                "UW"
            } else {
                proof { reveal_strlit("Uw"); }
                "Uw"
            }
        } else if caps {
            proof { reveal_strlit("IW"); }
            "IW"
        } else {
            proof { reveal_strlit("Iw"); }
            "Iw"
        }
    }
}

/// Appends the Latin spelling of the run `chars[start..end]` to `out`.
pub fn append_transliteration(chars: &Vec<char>, start: usize, end: usize, out: &mut String)
    requires
        start <= end <= chars.len(),
        forall|k: int| start <= k < end ==> spec_is_letter(#[trigger] chars@[k]),
    ensures
        final(out)@ == old(out)@ + transliterate(chars@.subrange(start as int, end as int)),
{
    let ghost run = chars@.subrange(start as int, end as int);
    let caps = is_all_caps(chars, start, end);
    let exception = has_front_exception(chars, start, end);
    let mut st = ScanState { last_was_vowel: false, last_front: false, vowel_seen: false };
    let mut i = start;
    while i < end
        invariant
            start <= i <= end <= chars.len(),
            run == chars@.subrange(start as int, end as int),
            forall|k: int| start <= k < end ==> spec_is_letter(#[trigger] chars@[k]),
            caps == all_caps(run),
            exception == front_exception(run),
            st == state_before(run, (i - start) as nat),
            out@ == old(out)@ + latin_prefix(run, (i - start) as nat),
        decreases end - i,
    {
        let c = chars[i];
        let at_start = i == start;
        assert(run[i - start] == c);
        if c == 'и' || c == 'И' || c == 'у' || c == 'У' {
            let front = if c == 'и' {
                exception || front_vowel_after(chars, start, i, end)
            } else {
                false
            };
            out.append(glide_replacement(c, at_start, st, caps, front));
        } else {
            out.append(fixed_replacement(c));
        }
        st = next_scan_state(c, at_start, st);
        i += 1;
        proof {
            assert(out@ =~= old(out)@ + latin_prefix(run, (i - start) as nat));
        }
    }
}

/// The Latin spelling of a run of Cyrillic letters.
pub fn transliterate_run(run: &Vec<char>) -> (r: String)
    requires
        forall|k: int| 0 <= k < run.len() ==> spec_is_letter(#[trigger] run@[k]),
    ensures
        r@ == transliterate(run@),
{
    let mut out = String::new();
    append_transliteration(run, 0, run.len(), &mut out);
    assert(run@.subrange(0, run.len() as int) =~= run@);
    out
}

} // verus!
