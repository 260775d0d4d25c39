use crate::lang::{ascii_lower_char, is_ascii_chars, lower_of, lowercase};
use crate::script::{SCRIPT_COUNT, Script, script_index, script_of_code};
use vstd::prelude::*;
use vstd::string::*;

verus! {

/// Whether `char::is_alphabetic` holds of a character.
pub uninterp spec fn alphabetic_of(c: char) -> bool;

/// Relies on `char::is_alphabetic`: the Unicode Alphabetic property of the character,
/// which holds of the ASCII letters and not of ASCII digits or the space.
#[verifier::external_body]
fn is_letter(c: char) -> (r: bool)
    ensures
        r == alphabetic_of(c),
        ('a' <= c <= 'z' || 'A' <= c <= 'Z') ==> r,
        ('0' <= c <= '9' || c == ' ') ==> !r,
{
    c.is_alphabetic()
}

/// The letters of `s`, in order.
pub open spec fn letters_of(s: Seq<char>) -> Seq<char>
    decreases s.len(),
{
    if s.len() == 0 {
        seq![]
    } else if alphabetic_of(s.last()) {
        letters_of(s.drop_last()).push(s.last())
    } else {
        letters_of(s.drop_last())
    }
}

/// The text as the detector reads it: lower-cased, with everything but letters left out.
pub open spec fn normalized(text: Seq<char>) -> Seq<char> {
    letters_of(lower_of(text))
}

/// The characters of `s` that belong to the script `sc`, in order.
pub open spec fn in_script(s: Seq<char>, sc: Script) -> Seq<char>
    decreases s.len(),
{
    if s.len() == 0 {
        seq![]
    } else if script_of_code(s.last() as u32) == Some(sc) {
        in_script(s.drop_last(), sc).push(s.last())
    } else {
        in_script(s.drop_last(), sc)
    }
}

/// Whether a character belongs to the script at position `k`.
pub open spec fn has_script_index(c: char, k: int) -> bool {
    match script_of_code(c as u32) {
        Some(sc) => script_index(sc) == k,
        None => false,
    }
}

/// How many characters of `s` belong to the script at position `k`.
pub open spec fn script_count(s: Seq<char>, k: int) -> nat
    decreases s.len(),
{
    if s.len() == 0 {
        0
    } else {
        script_count(s.drop_last(), k) + if has_script_index(s.last(), k) {
            1nat
        } else {
            0nat
        }
    }
}

/// Whether the script at position `k` is the one the text is written in: it has the
/// most characters, and no script before it in declaration order has as many.
pub open spec fn is_dominant(s: Seq<char>, k: int) -> bool {
    &&& 0 <= k < SCRIPT_COUNT
    &&& script_count(s, k) > 0
    &&& forall|j: int|
        0 <= j < SCRIPT_COUNT ==> #[trigger] script_count(s, j) <= script_count(s, k) && (j < k
            ==> script_count(s, j) < script_count(s, k))
}

/// Whether no character of `s` belongs to a supported script.
pub open spec fn has_no_script(s: Seq<char>) -> bool {
    forall|j: int| 0 <= j < SCRIPT_COUNT ==> #[trigger] script_count(s, j) == 0
}

/// Whether `s` is plain ASCII without a single letter.
pub open spec fn is_ascii_without_letters(s: Seq<char>) -> bool {
    forall|i: int|
        0 <= i < s.len() ==> (#[trigger] s[i] as u32) < 128 && !('a' <= s[i] <= 'z' || 'A' <= s[i]
            <= 'Z')
}

/// Letters kept from a text none of whose characters has a script have no script
/// either.
proof fn lemma_letters_without_script(s: Seq<char>)
    requires
        forall|i: int| 0 <= i < s.len() ==> script_of_code(#[trigger] s[i] as u32) is None,
    ensures
        has_no_script(letters_of(s)),
    decreases s.len(),
{
    if s.len() > 0 {
        let rest = s.drop_last();
        assert forall|i: int| 0 <= i < rest.len() implies script_of_code(
            #[trigger] rest[i] as u32,
        ) is None by {
            assert(rest[i] == s[i]);
        }
        lemma_letters_without_script(rest);
        let l = letters_of(rest);
        assert(script_of_code(s[s.len() - 1] as u32) is None);
        assert(l.push(s.last()).drop_last() =~= l);
        assert forall|j: int| 0 <= j < SCRIPT_COUNT implies #[trigger] script_count(
            letters_of(s),
            j,
        ) == 0 by {
            assert(script_count(l, j) == 0);
        }
    }
}

/// The characters of a string, in order.
fn chars_of(s: &str) -> (r: Vec<char>)
    ensures
        r@ == s@,
{
    let n = s.unicode_len();
    let mut r: Vec<char> = Vec::new();
    let mut i: usize = 0;
    while i < n
        invariant
            n == s@.len(),
            i <= n,
            r@ == s@.subrange(0, i as int),
        decreases n - i,
    {
        r.push(s.get_char(i));
        i += 1;
        assert(r@ =~= s@.subrange(0, i as int));
    }
    assert(r@ =~= s@);
    r
}

/// Lower-cases a text and keeps its letters only.
pub fn normalize(text: &str) -> (r: Vec<char>)
    ensures
        r@ == normalized(text@),
        is_ascii_without_letters(text@) ==> has_no_script(r@),
{
    let lower = lowercase(text);
    proof {
        if is_ascii_without_letters(text@) {
            assert(is_ascii_chars(text@));
            assert forall|i: int| 0 <= i < lower@.len() implies script_of_code(
                #[trigger] lower@[i] as u32,
            ) is None by {
                assert((text@[i] as u32) < 128);
                assert(lower@[i] == ascii_lower_char(text@[i]));
            }
            lemma_letters_without_script(lower@);
        }
    }
    let cs = chars_of(lower.as_str());
    let mut r: Vec<char> = Vec::new();
    let mut i: usize = 0;
    while i < cs.len()
        invariant
            i <= cs@.len(),
            r@ == letters_of(cs@.subrange(0, i as int)),
        decreases cs@.len() - i,
    {
        let c = cs[i];
        assert(cs@.subrange(0, i + 1).drop_last() =~= cs@.subrange(0, i as int));
        if is_letter(c) {
            r.push(c);
        }
        i += 1;
    }
    assert(cs@.subrange(0, cs@.len() as int) =~= cs@);
    r
}

/// The characters of `chars` that belong to the script `sc`.
pub fn script_letters(chars: &Vec<char>, sc: Script) -> (r: Vec<char>)
    ensures
        r@ == in_script(chars@, sc),
{
    let mut r: Vec<char> = Vec::new();
    let mut i: usize = 0;
    while i < chars.len()
        invariant
            i <= chars@.len(),
            r@ == in_script(chars@.subrange(0, i as int), sc),
        decreases chars@.len() - i,
    {
        let c = chars[i];
        assert(chars@.subrange(0, i + 1).drop_last() =~= chars@.subrange(0, i as int));
        if Script::of_char(c) == Some(sc) {
            r.push(c);
        }
        i += 1;
    }
    assert(chars@.subrange(0, chars@.len() as int) =~= chars@);
    r
}

/// How many characters of `chars` belong to each script, by script position.
pub fn script_tally(chars: &Vec<char>) -> (r: Vec<u64>)
    ensures
        r@.len() == SCRIPT_COUNT,
        forall|k: int| 0 <= k < SCRIPT_COUNT ==> r@[k] as nat == script_count(chars@, k),
{
    let mut r: Vec<u64> = Vec::new();
    let mut k: usize = 0;
    while k < SCRIPT_COUNT
        invariant
            k <= SCRIPT_COUNT,
            r@.len() == k,
            forall|j: int| 0 <= j < k ==> r@[j] == 0,
        decreases SCRIPT_COUNT - k,
    {
        r.push(0);
        k += 1;
    }
    let mut i: usize = 0;
    while i < chars.len()
        invariant
            i <= chars@.len(),
            r@.len() == SCRIPT_COUNT,
            forall|j: int|
                0 <= j < SCRIPT_COUNT ==> r@[j] as nat == script_count(
                    chars@.subrange(0, i as int),
                    j,
                ) && r@[j] <= i,
        decreases chars@.len() - i,
    {
        let c = chars[i];
        assert(chars@.subrange(0, i + 1).drop_last() =~= chars@.subrange(0, i as int));
        match Script::of_char(c) {
            Some(sc) => {
                let x = sc.index();
                let v = r[x];
                r.set(x, v + 1);
            },
            None => {},
        }
        i += 1;
    }
    assert(chars@.subrange(0, chars@.len() as int) =~= chars@);
    r
}

/// The script most of the characters are written in, ties going to the script that
/// comes first in declaration order; `None` where no character has a script.
pub fn dominant_script(chars: &Vec<char>) -> (r: Option<Script>)
    ensures
        match r {
            None => has_no_script(chars@),
            Some(sc) => is_dominant(chars@, script_index(sc)),
        },
{
    let tally = script_tally(chars);
    let mut best: usize = 0;
    let mut k: usize = 1;
    while k < SCRIPT_COUNT
        invariant
            tally@.len() == SCRIPT_COUNT,
            best < k <= SCRIPT_COUNT,
            forall|j: int|
                0 <= j < k ==> tally@[j] <= tally@[best as int] && (j < best ==> tally@[j]
                    < tally@[best as int]),
        decreases SCRIPT_COUNT - k,
    {
        if tally[k] > tally[best] {
            best = k;
        }
        k += 1;
    }
    if tally[best] == 0 {
        assert forall|j: int| 0 <= j < SCRIPT_COUNT implies #[trigger] script_count(chars@, j)
            == 0 by {
            assert(tally@[j] <= tally@[best as int]);
        }
        None
    } else {
        let sc = Script::from_index(best);
        proof {
            script_index_of_position(best as int);
            assert forall|j: int| 0 <= j < SCRIPT_COUNT implies #[trigger] script_count(chars@, j)
                <= script_count(chars@, best as int) && (j < best ==> script_count(chars@, j)
                < script_count(chars@, best as int)) by {
                assert(tally@[j] <= tally@[best as int]);
            }
        }
        Some(sc)
    }
}

/// The script at a position has that position.
proof fn script_index_of_position(k: int)
    requires
        0 <= k < SCRIPT_COUNT,
    ensures
        script_index(crate::script::all_scripts()[k]) == k,
{
}

} // verus!
