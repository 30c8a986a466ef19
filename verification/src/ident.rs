//! Column names in their canonical form: lower case, words parted by `_`.

use vstd::prelude::*;

verus! {

/// Whether `c` has the Unicode property `Uppercase`, as `char::is_uppercase`
/// tells it.
pub uninterp spec fn is_uppercase(c: char) -> bool;

/// Whether `c` has the Unicode property `Lowercase`, as `char::is_lowercase`
/// tells it.
pub uninterp spec fn is_lowercase(c: char) -> bool;

/// The lower-case mapping of `c`, as `char::to_lowercase` yields it: for some
/// characters it is more than one character long.
pub uninterp spec fn lowercase_of(c: char) -> Seq<char>;

/// Calls `char::is_uppercase`. Taken on trust: the answer is a function of
/// the character alone, which this module calls `is_uppercase`. The Unicode
/// tables behind it are not restated.
#[verifier::external_body]
fn char_is_uppercase(c: char) -> (b: bool)
    ensures
        b == is_uppercase(c),
{
    c.is_uppercase()
}

/// Calls `char::is_lowercase`. Taken on trust: the answer is a function of
/// the character alone, which this module calls `is_lowercase`. The Unicode
/// tables behind it are not restated.
#[verifier::external_body]
fn char_is_lowercase(c: char) -> (b: bool)
    ensures
        b == is_lowercase(c),
{
    c.is_lowercase()
}

/// Calls `char::to_lowercase` and gathers the characters that it yields
/// into a string. Taken on trust: they are a function of the character alone,
/// which this module calls `lowercase_of`. The Unicode tables behind it are
/// not restated.
#[verifier::external_body]
fn char_to_lowercase(c: char) -> (s: String)
    ensures
        s@ == lowercase_of(c),
{
    c.to_lowercase().collect()
}

/// A new word starts at position `i` of `name`: an upper-case character
/// stands there, right behind a lower-case one. No word starts at the first
/// character.
pub open spec fn word_starts(name: Seq<char>, i: int) -> bool {
    0 < i < name.len() && is_lowercase(name[i - 1]) && is_uppercase(name[i])
}

/// What the character at position `i` of `name` becomes: its lower-case
/// mapping, behind a `_` where a new word starts there.
pub open spec fn snake_piece(name: Seq<char>, i: int) -> Seq<char> {
    if word_starts(name, i) {
        seq!['_'] + lowercase_of(name[i])
    } else {
        lowercase_of(name[i])
    }
}

/// The pieces of the first `n` characters of `name`, one behind the other.
pub open spec fn snake_prefix(name: Seq<char>, n: nat) -> Seq<char>
    decreases n,
{
    if n == 0 {
        Seq::empty()
    } else {
        snake_prefix(name, (n - 1) as nat) + snake_piece(name, n - 1)
    }
}

/// The canonical form of `name`: every character in lower case, and a `_`
/// before each upper-case character that follows a lower-case one.
pub open spec fn snake_case_text(name: Seq<char>) -> Seq<char> {
    snake_prefix(name, name.len())
}

/// Brings `s` into its canonical form. Every text has one.
pub fn snake_case(s: &str) -> (result: String)
    ensures
        result@ == snake_case_text(s@),
{
    let mut result = String::new();
    let mut after_lowercase = false;
    let chars = s.chars();
    for ch in it: chars
        invariant
            it.seq() == s@,
            result@ == snake_prefix(s@, it.index() as nat),
            after_lowercase == (it.index() > 0 && is_lowercase(s@[it.index() - 1])),
    {
        if after_lowercase && char_is_uppercase(ch) {
            result.push('_');
        }
        let lowered = char_to_lowercase(ch);
        result.append(lowered.as_str());
        after_lowercase = char_is_lowercase(ch);
    }
    result
}

/// The character at position `i` of `name` stays as it is: no word starts
/// there, and the character is its own lower-case mapping.
pub open spec fn stays(name: Seq<char>, i: int) -> bool {
    !word_starts(name, i) && lowercase_of(name[i]) == seq![name[i]]
}

/// A name is canonical where each of its characters stays as it is.
pub open spec fn is_canonical(name: Seq<char>) -> bool {
    forall|i: int| 0 <= i < name.len() ==> #[trigger] stays(name, i)
}

/// Whether `name` is canonical, found out character by character.
pub fn is_snake_case(name: &str) -> (b: bool)
    ensures
        b == is_canonical(name@),
{
    let mut after_lowercase = false;
    let chars = name.chars();
    for ch in it: chars
        invariant
            it.seq() == name@,
            after_lowercase == (it.index() > 0 && is_lowercase(name@[it.index() - 1])),
            forall|i: int| 0 <= i < it.index() ==> #[trigger] stays(name@, i),
    {
        if after_lowercase && char_is_uppercase(ch) {
            assert(!stays(name@, it.index()));
            return false;
        }
        let lowered = char_to_lowercase(ch);
        if lowered.as_str().unicode_len() != 1 || lowered.as_str().get_char(0) != ch {
            assert(seq![ch].len() == 1 && seq![ch][0] == ch);
            assert(!stays(name@, it.index()));
            return false;
        }
        assert(lowered@ =~= seq![ch]);
        after_lowercase = char_is_lowercase(ch);
    }
    true
}

proof fn lemma_canonical_prefix(name: Seq<char>, n: nat)
    requires
        is_canonical(name),
        n <= name.len(),
    ensures
        snake_prefix(name, n) == name.take(n as int),
    decreases n,
{
    if n > 0 {
        lemma_canonical_prefix(name, (n - 1) as nat);
        assert(stays(name, n - 1));
    }
}

/// A canonical name is its own canonical form.
pub proof fn lemma_canonical_is_kept(name: Seq<char>)
    requires
        is_canonical(name),
    ensures
        snake_case_text(name) == name,
{
    lemma_canonical_prefix(name, name.len());
}

/// The character is written in lower case as itself, and is not upper case.
pub open spec fn is_settled(c: char) -> bool {
    !is_uppercase(c) && lowercase_of(c) == seq![c]
}

/// Every character of the lower-case mapping of `c` is settled.
pub open spec fn lowers_to_settled(c: char) -> bool {
    forall|j: int| 0 <= j < lowercase_of(c).len() ==> is_settled(#[trigger] lowercase_of(c)[j])
}

proof fn lemma_prefix_is_settled(name: Seq<char>, n: nat)
    requires
        is_settled('_'),
        n <= name.len(),
        forall|i: int| 0 <= i < name.len() ==> lowers_to_settled(#[trigger] name[i]),
    ensures
        forall|k: int|
            0 <= k < snake_prefix(name, n).len() ==> is_settled(#[trigger] snake_prefix(name, n)[k]),
    decreases n,
{
    if n > 0 {
        lemma_prefix_is_settled(name, (n - 1) as nat);
        let before = snake_prefix(name, (n - 1) as nat);
        let piece = snake_piece(name, n - 1);
        assert(lowers_to_settled(name[n - 1]));
        assert forall|k: int| 0 <= k < piece.len() implies is_settled(#[trigger] piece[k]) by {
            if word_starts(name, n - 1) && k > 0 {
                assert(piece[k] == lowercase_of(name[n - 1])[k - 1]);
            }
        }
        assert forall|k: int| 0 <= k < (before + piece).len() implies is_settled(
            #[trigger] (before + piece)[k],
        ) by {
            if k >= before.len() {
                assert((before + piece)[k] == piece[k - before.len()]);
            }
        }
    }
}

/// Where `_` is settled and the characters of `name` have lower-case mappings
/// of settled characters only, the canonical form of `name` is canonical. This
/// leaves out a name with an upper-case character that has no lower-case form
/// of its own: behind a lowered letter it starts a word the second time.
pub proof fn lemma_snake_case_is_canonical(name: Seq<char>)
    requires
        is_settled('_'),
        forall|i: int| 0 <= i < name.len() ==> lowers_to_settled(#[trigger] name[i]),
    ensures
        is_canonical(snake_case_text(name)),
{
    lemma_prefix_is_settled(name, name.len());
    let text = snake_case_text(name);
    assert forall|i: int| 0 <= i < text.len() implies #[trigger] stays(text, i) by {
        assert(is_settled(text[i]));
    }
}

/// Where the canonical form of a name is canonical, taking the canonical
/// form once more changes nothing.
pub proof fn lemma_snake_case_idempotent(name: Seq<char>)
    requires
        is_canonical(snake_case_text(name)),
    ensures
        snake_case_text(snake_case_text(name)) == snake_case_text(name),
{
    lemma_canonical_is_kept(snake_case_text(name));
}

} // verus!
