//! String helpers shared by the modules that compare and edit names.
use vstd::prelude::*;

verus! {

/// Equality of two string slices.
///
/// Trusted: calls `<str as PartialEq>::eq`, which the standard library
/// documents as comparing the two strings character by character; the
/// contract states that the result is the equality of their contents.
#[verifier::external_body]
pub(crate) fn str_eq(a: &str, b: &str) -> (r: bool)
    ensures
        r == (a@ == b@),
{
    a == b
}

/// Appends `c` to the end of `s`.
///
/// Trusted: calls `String::push`, which the standard library documents as
/// appending the given char to the end of the string.
#[verifier::external_body]
pub(crate) fn string_push(s: &mut String, c: char)
    ensures
        final(s)@ == old(s)@.push(c),
{
    s.push(c)
}

/// Removes the last character of `s` and returns it, or `None` when `s` is empty.
///
/// Trusted: calls `String::pop`, which the standard library documents as
/// removing the last character and returning it, or returning `None` on an
/// empty string.
#[verifier::external_body]
pub(crate) fn string_pop(s: &mut String) -> (r: Option<char>)
    ensures
        old(s)@.len() == 0 ==> r.is_none() && final(s)@ == old(s)@,
        old(s)@.len() > 0 ==> r == Some(old(s)@.last()) && final(s)@ == old(s)@.drop_last(),
{
    s.pop()
}

} // verus!

verus! {

/// `i` is the position of the first occurrence of `id` in `ids`.
pub open spec fn is_first_index(ids: Seq<Seq<char>>, id: Seq<char>, i: int) -> bool {
    &&& 0 <= i < ids.len()
    &&& ids[i] == id
    &&& forall|j: int| 0 <= j < i ==> ids[j] != id
}

/// The position of the first occurrence of `id` in `ids`, if any.
pub open spec fn first_index_of(ids: Seq<Seq<char>>, id: Seq<char>) -> Option<int> {
    if exists|i: int| is_first_index(ids, id, i) {
        Some(choose|i: int| is_first_index(ids, id, i))
    } else {
        None
    }
}

/// The views of a sequence of strings.
pub open spec fn string_views(s: Seq<String>) -> Seq<Seq<char>> {
    s.map_values(|x: String| x@)
}

pub proof fn lemma_first_index_found(ids: Seq<Seq<char>>, id: Seq<char>, i: int)
    requires
        is_first_index(ids, id, i),
    ensures
        first_index_of(ids, id) == Some(i),
{
    let c = choose|c: int| is_first_index(ids, id, c);
    assert(is_first_index(ids, id, c));
    if c < i {
        assert(ids[c] != id);
    } else if c > i {
        assert(ids[i] != id);
    }
}

pub proof fn lemma_first_index_absent(ids: Seq<Seq<char>>, id: Seq<char>)
    requires
        forall|j: int| 0 <= j < ids.len() ==> ids[j] != id,
    ensures
        first_index_of(ids, id) is None,
{
}

/// Every occurrence comes at or after the first one, and there is a first
/// occurrence as soon as there is any.
pub proof fn lemma_first_index_exists(ids: Seq<Seq<char>>, id: Seq<char>, k: int)
    requires
        0 <= k < ids.len(),
        ids[k] == id,
    ensures
        first_index_of(ids, id) is Some,
        first_index_of(ids, id).unwrap() <= k,
    decreases k,
{
    if forall|j: int| 0 <= j < k ==> ids[j] != id {
        lemma_first_index_found(ids, id, k);
    } else {
        let j = choose|j: int| 0 <= j < k && ids[j] == id;
        lemma_first_index_exists(ids, id, j);
    }
}

} // verus!

verus! {

/// Whether `c` is alphabetic or numeric in the Unicode sense, as
/// `char::is_alphanumeric` reports it.
pub uninterp spec fn unicode_alphanumeric(c: char) -> bool;

/// Whether `c` is alphabetic or numeric.
///
/// Trusted: calls `char::is_alphanumeric`. The contract names its result
/// [`unicode_alphanumeric`] and states only what the documentation makes
/// plain for ASCII: letters and digits are alphanumeric, every other ASCII
/// character is not. Which non-ASCII characters qualify is left unsaid.
#[verifier::external_body]
pub(crate) fn char_is_alphanumeric(c: char) -> (r: bool)
    ensures
        r == unicode_alphanumeric(c),
        (c as u32) < 128 ==> (r <==> ('a' <= c <= 'z' || 'A' <= c <= 'Z' || '0' <= c <= '9')),
{
    c.is_alphanumeric()
}

/// `ids` without any entry equal to `id`, order kept.
pub open spec fn without_id(ids: Seq<String>, id: Seq<char>) -> Seq<String> {
    ids.filter(|s: String| s@ != id)
}

/// `ids` with every entry equal to `id` removed.
pub(crate) fn remove_id(ids: &Vec<String>, id: &str) -> (r: Vec<String>)
    ensures
        r@ == without_id(ids@, id@),
{
    let mut kept: Vec<String> = Vec::new();
    let mut j: usize = 0;
    while j < ids.len()
        invariant
            j <= ids@.len(),
            kept@ == without_id(ids@.take(j as int), id@),
        decreases ids@.len() - j,
    {
        proof {
            reveal_with_fuel(Seq::filter, 1);
            assert(ids@.take(j as int + 1).drop_last() == ids@.take(j as int));
        }
        if !str_eq(ids[j].as_str(), id) {
            kept.push(ids[j].clone());
        }
        j += 1;
    }
    assert(ids@.take(ids@.len() as int) == ids@);
    kept
}

} // verus!

verus! {

/// The character of decimal digit `d` (0 to 9).
pub open spec fn digit_char(d: nat) -> char {
    if d == 0 { '0' } else if d == 1 { '1' } else if d == 2 { '2' } else if d == 3 { '3' } else if d == 4 {
        '4'
    } else if d == 5 { '5' } else if d == 6 { '6' } else if d == 7 { '7' } else if d == 8 { '8' } else { '9' }
}

/// `n` written in decimal, without leading zeros.
pub open spec fn decimal_view(n: nat) -> Seq<char>
    decreases n,
{
    if n < 10 {
        seq![digit_char(n)]
    } else {
        decimal_view(n / 10).push(digit_char(n % 10))
    }
}

fn digit(d: u64) -> (c: char)
    requires
        d < 10,
    ensures
        c == digit_char(d as nat),
{
    match d {
        0 => '0',
        1 => '1',
        2 => '2',
        3 => '3',
        4 => '4',
        5 => '5',
        6 => '6',
        7 => '7',
        8 => '8',
        _ => '9',
    }
}

/// Appends `n` in decimal to `s`.
pub(crate) fn push_decimal(s: &mut String, n: u64)
    ensures
        final(s)@ == old(s)@ + decimal_view(n as nat),
    decreases n,
{
    if n >= 10 {
        push_decimal(s, n / 10);
    }
    string_push(s, digit(n % 10));
    assert(s@ =~= old(s)@ + decimal_view(n as nat)) by {
        if n >= 10 {
            assert(decimal_view(n as nat) == decimal_view((n / 10) as nat).push(digit_char((n % 10) as nat)));
        }
    }
}

} // verus!

verus! {

/// `prefix` followed by `rest`, as a new string.
pub(crate) fn concat(prefix: &str, rest: &str) -> (r: String)
    ensures
        r@ == prefix@ + rest@,
{
    let mut out = prefix.to_string();
    let n = rest.unicode_len();
    let mut i: usize = 0;
    while i < n
        invariant
            i <= n,
            n == rest@.len(),
            out@ == prefix@ + rest@.take(i as int),
        decreases n - i,
    {
        string_push(&mut out, rest.get_char(i));
        assert(rest@.take(i as int + 1) =~= rest@.take(i as int).push(rest@[i as int]));
        i += 1;
    }
    assert(rest@.take(n as int) =~= rest@);
    out
}

/// The ASCII lowercase of `c`: capital letters become small, every other
/// character stays.
pub open spec fn ascii_lower(c: char) -> char {
    if 'A' <= c <= 'Z' { ((c as u32) + 32) as char } else { c }
}

/// Every character of `s` is ASCII.
pub open spec fn all_ascii(s: Seq<char>) -> bool {
    forall|i: int| 0 <= i < s.len() ==> (s[i] as u32) < 128
}

/// `s` in lower case, as `str::to_lowercase` gives it.
pub uninterp spec fn unicode_lowercase(s: Seq<char>) -> Seq<char>;

/// `s` in lower case.
///
/// Trusted: calls `str::to_lowercase`, which the standard library
/// documents as mapping each character to its Unicode lowercase form. The
/// contract names the result [`unicode_lowercase`] and states it only for
/// ASCII text, where capitals become small letters and everything else is
/// kept; the mapping of other characters is left unsaid.
#[verifier::external_body]
pub(crate) fn to_lowercase(s: &str) -> (r: String)
    ensures
        r@ == unicode_lowercase(s@),
        all_ascii(s@) ==> r@ == s@.map_values(|c: char| ascii_lower(c)),
{
    s.to_lowercase()
}

} // verus!
