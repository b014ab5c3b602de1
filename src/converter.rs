//! Conversion of whole texts: every maximal run of Cyrillic letters is
//! replaced by its Latin spelling, and everything else is copied as it is.
use vstd::prelude::*;
use crate::alphabet::{spec_is_letter, is_letter, letter_free};
use crate::harmony::{
    transliterate, latin_prefix, append_transliteration, lemma_transliterate_letter_free,
};

verus! {

/// Relies on `String::push`: the character is appended at the end of the string.
pub assume_specification[ String::push ](s: &mut String, ch: char)
    ensures
        final(s)@ == old(s)@.push(ch),
;

/// The conversion of `s`, where `pending` is the run of letters read just
/// before `s` and not yet spelled.
pub open spec fn convert_pending(s: Seq<char>, pending: Seq<char>) -> Seq<char>
    decreases s.len(),
{
    if s.len() == 0 {
        transliterate(pending)
    } else if spec_is_letter(s[0]) {
        convert_pending(s.drop_first(), pending.push(s[0]))
    } else {
        transliterate(pending) + seq![s[0]] + convert_pending(s.drop_first(), seq![])
    }
}

/// The conversion of a whole text.
pub open spec fn converted(s: Seq<char>) -> Seq<char> {
    convert_pending(s, seq![])
}

proof fn lemma_transliterate_empty()
    ensures
        transliterate(seq![]) == Seq::<char>::empty(),
{
    assert(latin_prefix(seq![], 0) == Seq::<char>::empty());
}

/// Reading `k` letters moves them from the text to the pending run.
proof fn lemma_read_letters(s: Seq<char>, pending: Seq<char>, k: int)
    requires
        0 <= k <= s.len(),
        forall|j: int| 0 <= j < k ==> spec_is_letter(#[trigger] s[j]),
    ensures
        convert_pending(s, pending) == convert_pending(s.skip(k), pending + s.take(k)),
    decreases k,
{
    if k == 0 {
        assert(s.skip(0) =~= s);
        assert(pending + s.take(0) =~= pending);
    } else {
        lemma_read_letters(s.drop_first(), pending.push(s[0]), k - 1);
        assert(s.drop_first().skip(k - 1) =~= s.skip(k));
        assert(pending.push(s[0]) + s.drop_first().take(k - 1) =~= pending + s.take(k));
    }
}

/// At the end of a run, the pending letters are spelled out.
proof fn lemma_flush(s: Seq<char>, pending: Seq<char>)
    requires
        s.len() == 0 || !spec_is_letter(s[0]),
    ensures
        convert_pending(s, pending) == transliterate(pending) + converted(s),
{
    lemma_transliterate_empty();
    if s.len() == 0 {
        assert(transliterate(pending) + converted(s) =~= transliterate(pending));
    } else {
        assert(converted(s) =~= seq![s[0]] + convert_pending(s.drop_first(), seq![]));
        assert(transliterate(pending) + seq![s[0]] + convert_pending(s.drop_first(), seq![])
            =~= transliterate(pending) + converted(s));
    }
}

/// A text made of one run of letters converts to the spelling of that run.
pub proof fn lemma_single_run(run: Seq<char>)
    requires
        forall|k: int| 0 <= k < run.len() ==> spec_is_letter(#[trigger] run[k]),
    ensures
        converted(run) == transliterate(run),
{
    lemma_read_letters(run, seq![], run.len() as int);
    assert(run.skip(run.len() as int) =~= Seq::<char>::empty());
    assert(Seq::<char>::empty() + run.take(run.len() as int) =~= run);
    lemma_flush(Seq::<char>::empty(), run);
    lemma_transliterate_empty();
    assert(converted(Seq::<char>::empty()) =~= Seq::<char>::empty());
    assert(transliterate(run) + Seq::<char>::empty() =~= transliterate(run));
}

proof fn lemma_concat_letter_free(a: Seq<char>, b: Seq<char>)
    requires
        letter_free(a),
        letter_free(b),
    ensures
        letter_free(a + b),
{
    assert forall|k: int| 0 <= k < (a + b).len() implies !spec_is_letter(#[trigger] (a + b)[k]) by {
        if k >= a.len() {
            assert((a + b)[k] == b[k - a.len()]);
        }
    }
}

/// A text without Cyrillic letters converts to itself.
pub proof fn lemma_unchanged_without_letters(s: Seq<char>)
    requires
        letter_free(s),
    ensures
        converted(s) == s,
    decreases s.len(),
{
    if s.len() > 0 {
        assert(!spec_is_letter(s[0]));
        lemma_transliterate_empty();
        assert forall|k: int| 0 <= k < s.drop_first().len() implies !spec_is_letter(
            #[trigger] s.drop_first()[k],
        ) by {
            assert(s.drop_first()[k] == s[k + 1]);
        }
        lemma_unchanged_without_letters(s.drop_first());
        assert(converted(s) =~= s);
    }
}

proof fn lemma_split_at_char(a: Seq<char>, c: char, b: Seq<char>, pending: Seq<char>)
    requires
        !spec_is_letter(c),
    ensures
        convert_pending(a + seq![c] + b, pending) == convert_pending(a, pending) + seq![c]
            + converted(b),
    decreases a.len(),
{
    let s = a + seq![c] + b;
    lemma_transliterate_empty();
    if a.len() == 0 {
        assert(s[0] == c);
        assert(s.drop_first() =~= b);
        assert(convert_pending(a, pending) == transliterate(pending));
    } else {
        assert(s[0] == a[0]);
        assert(s.drop_first() =~= a.drop_first() + seq![c] + b);
        if spec_is_letter(a[0]) {
            lemma_split_at_char(a.drop_first(), c, b, pending.push(a[0]));
        } else {
            lemma_split_at_char(a.drop_first(), c, b, seq![]);
            assert(convert_pending(s, pending) =~= convert_pending(a, pending) + seq![c]
                + converted(b));
        }
    }
}

/// Characters outside the alphabet are kept verbatim and in place: a span
/// `p` of them splits the text, and the text on each side converts on its own.
pub proof fn lemma_passthrough_kept(a: Seq<char>, p: Seq<char>, b: Seq<char>)
    requires
        p.len() > 0,
        letter_free(p),
    ensures
        converted(a + p + b) == converted(a) + p + converted(b),
    decreases p.len(),
{
    let c = p[0];
    let q = p.drop_first();
    assert(!spec_is_letter(c));
    assert(a + p + b =~= a + seq![c] + (q + b));
    lemma_split_at_char(a, c, q + b, seq![]);
    if q.len() == 0 {
        assert(q + b =~= b);
        assert(a + seq![c] =~= a + p);
    } else {
        assert forall|k: int| 0 <= k < q.len() implies !spec_is_letter(#[trigger] q[k]) by {
            assert(q[k] == p[k + 1]);
        }
        assert(Seq::<char>::empty() + q + b =~= q + b);
        lemma_passthrough_kept(seq![], q, b);
        lemma_unchanged_without_letters(q);
        assert(converted(Seq::<char>::empty()) =~= Seq::<char>::empty());
    }
    assert(converted(a) + seq![c] + converted(q + b) =~= converted(a) + p + converted(b));
}

proof fn lemma_pending_letter_free(s: Seq<char>, pending: Seq<char>)
    ensures
        letter_free(convert_pending(s, pending)),
    decreases s.len(),
{
    lemma_transliterate_letter_free(pending);
    if s.len() > 0 {
        if spec_is_letter(s[0]) {
            lemma_pending_letter_free(s.drop_first(), pending.push(s[0]));
        } else {
            lemma_pending_letter_free(s.drop_first(), seq![]);
            lemma_concat_letter_free(transliterate(pending), seq![s[0]]);
            lemma_concat_letter_free(
                transliterate(pending) + seq![s[0]],
                convert_pending(s.drop_first(), seq![]),
            );
        }
    }
}

/// No Cyrillic letter is left in a converted text.
pub proof fn lemma_output_letter_free(s: Seq<char>)
    ensures
        letter_free(converted(s)),
{
    lemma_pending_letter_free(s, seq![]);
}

/// Collects the characters of a string.
fn chars_of(s: &str) -> (r: Vec<char>)
    ensures
        r@ == s@,
{
    broadcast use vstd::string::group_string_axioms;

    let mut v: Vec<char> = Vec::new();
    for c in it: s.chars()
        invariant
            it.seq() == s@,
            v@ == s@.take(it.index() as int),
    {
        v.push(c);
    }
    assert(v@ =~= s@);
    v
}

/// Converts a text from Cyrillic to Latin script: each maximal run of
/// Cyrillic letters is transliterated, all other characters are kept.
pub fn convert(input: &str) -> (r: String)
    ensures
        r@ == converted(input@),
{
    let chars = chars_of(input);
    let n = chars.len();
    let mut out = String::new();
    let mut i: usize = 0;
    assert(chars@.skip(0) =~= chars@);
    assert(out@ + converted(chars@) =~= converted(chars@));
    while i < n
        invariant
            i <= n == chars.len(),
            chars@ == input@,
            out@ + converted(chars@.skip(i as int)) == converted(input@),
        decreases n - i,
    {
        let ghost rest = chars@.skip(i as int);
        if is_letter(chars[i]) {
            let mut j = i;
            while j < n && is_letter(chars[j])
                invariant
                    i <= j <= n == chars.len(),
                    forall|k: int| i <= k < j ==> spec_is_letter(#[trigger] chars@[k]),
                decreases n - j,
            {
                j += 1;
            }
            append_transliteration(&chars, i, j, &mut out);
            proof {
                let k = j - i;
                assert forall|m: int| 0 <= m < k implies spec_is_letter(#[trigger] rest[m]) by {
                    assert(rest[m] == chars@[i + m]);
                }
                lemma_read_letters(rest, seq![], k);
                assert(rest.skip(k) =~= chars@.skip(j as int));
                assert(seq![] + rest.take(k) =~= chars@.subrange(i as int, j as int));
                lemma_flush(chars@.skip(j as int), chars@.subrange(i as int, j as int));
                assert(out@ + converted(chars@.skip(j as int)) =~= converted(input@));
            }
            i = j;
        } else {
            out.push(chars[i]);
            proof {
                lemma_transliterate_empty();
                assert(rest.drop_first() =~= chars@.skip(i + 1));
                assert(converted(rest) =~= seq![chars@[i as int]] + converted(
                    chars@.skip(i + 1),
                ));
                assert(out@ + converted(chars@.skip(i + 1)) =~= converted(input@));
            }
            i += 1;
        }
    }
    proof {
        assert(converted(chars@.skip(n as int)) =~= Seq::<char>::empty()) by {
            lemma_transliterate_empty();
        }
        assert(out@ =~= converted(input@));
    }
    out
}

} // verus!
