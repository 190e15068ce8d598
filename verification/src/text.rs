//! Character-level helpers on strings: ASCII case folding, exact and
//! case-insensitive comparison, and trimming of a repeated leading character.
use vstd::prelude::*;
use vstd::string::StrSliceExecFns;

verus! {

/// The ASCII lower-case form of a character; every other character is unchanged.
pub open spec fn ascii_lower(c: char) -> char {
    if 'A' <= c && c <= 'Z' {
        ((c as u32) + 32) as char
    } else {
        c
    }
}

/// Two texts are equal once their ASCII letters are folded to lower case.
pub open spec fn eq_ignore_ascii_case(a: Seq<char>, b: Seq<char>) -> bool {
    &&& a.len() == b.len()
    &&& forall|i: int| 0 <= i < a.len() ==> #[trigger] ascii_lower(a[i]) == ascii_lower(b[i])
}

/// The text left once every leading copy of `c` is removed.
pub open spec fn trim_start_char(s: Seq<char>, c: char) -> Seq<char>
    decreases s.len(),
{
    if s.len() > 0 && s[0] == c {
        trim_start_char(s.drop_first(), c)
    } else {
        s
    }
}

/// A character folds to a lower-case ASCII letter exactly when it is that letter or
/// its capital.
proof fn lemma_folds_to_letter(c: char, lower: char)
    requires
        'a' <= lower <= 'z',
    ensures
        ascii_lower(c) == lower <==> (c == lower || c as u32 == lower as u32 - 32),
{
}

/// A text matches `html` ignoring ASCII case exactly when it is four letters spelling
/// h, t, m, l, each in either case.
pub proof fn html_in_any_case(e: Seq<char>)
    ensures
        eq_ignore_ascii_case(e, "html"@) <==> (e.len() == 4 && (e[0] == 'h' || e[0] == 'H') && (
        e[1] == 't' || e[1] == 'T') && (e[2] == 'm' || e[2] == 'M') && (e[3] == 'l' || e[3]
            == 'L')),
{
    reveal_strlit("html");
    lemma_folds_to_letter(e[0], 'h');
    lemma_folds_to_letter(e[1], 't');
    lemma_folds_to_letter(e[2], 'm');
    lemma_folds_to_letter(e[3], 'l');
    if e.len() == 4 && (e[0] == 'h' || e[0] == 'H') && (e[1] == 't' || e[1] == 'T') && (e[2]
        == 'm' || e[2] == 'M') && (e[3] == 'l' || e[3] == 'L') {
        assert forall|i: int| 0 <= i < e.len() implies #[trigger] ascii_lower(e[i])
            == ascii_lower("html"@[i]) by {
            assert(0 <= i < 4);
        }
    }
    if eq_ignore_ascii_case(e, "html"@) {
        assert(ascii_lower(e[0]) == ascii_lower("html"@[0]));
        assert(ascii_lower(e[1]) == ascii_lower("html"@[1]));
        assert(ascii_lower(e[2]) == ascii_lower("html"@[2]));
        assert(ascii_lower(e[3]) == ascii_lower("html"@[3]));
    }
}

/// A text matches `htm` ignoring ASCII case exactly when it is three letters spelling
/// h, t, m, each in either case.
pub proof fn htm_in_any_case(e: Seq<char>)
    ensures
        eq_ignore_ascii_case(e, "htm"@) <==> (e.len() == 3 && (e[0] == 'h' || e[0] == 'H') && (
        e[1] == 't' || e[1] == 'T') && (e[2] == 'm' || e[2] == 'M')),
{
    reveal_strlit("htm");
    lemma_folds_to_letter(e[0], 'h');
    lemma_folds_to_letter(e[1], 't');
    lemma_folds_to_letter(e[2], 'm');
    if e.len() == 3 && (e[0] == 'h' || e[0] == 'H') && (e[1] == 't' || e[1] == 'T') && (e[2]
        == 'm' || e[2] == 'M') {
        assert forall|i: int| 0 <= i < e.len() implies #[trigger] ascii_lower(e[i])
            == ascii_lower("htm"@[i]) by {
            assert(0 <= i < 3);
        }
    }
    if eq_ignore_ascii_case(e, "htm"@) {
        assert(ascii_lower(e[0]) == ascii_lower("htm"@[0]));
        assert(ascii_lower(e[1]) == ascii_lower("htm"@[1]));
        assert(ascii_lower(e[2]) == ascii_lower("htm"@[2]));
    }
}

/// Lower-cases one ASCII letter and leaves every other character as it is.
pub fn to_ascii_lower(c: char) -> (r: char)
    ensures
        r == ascii_lower(c),
{
    if 'A' <= c && c <= 'Z' {
        let code: u8 = (c as u8) + 32;
        code as char
    } else {
        c
    }
}

/// Exact comparison of two texts.
pub fn str_eq(a: &str, b: &str) -> (r: bool)
    ensures
        r == (a@ == b@),
{
    let left = a.to_owned();
    let right = b.to_owned();
    left == right
}

/// ASCII case-insensitive comparison, as `str::eq_ignore_ascii_case` defines it.
pub fn str_eq_ignore_ascii_case(a: &str, b: &str) -> (r: bool)
    ensures
        r == eq_ignore_ascii_case(a@, b@),
{
    let n = a.unicode_len();
    if n != b.unicode_len() {
        return false;
    }
    let mut i: usize = 0;
    while i < n
        invariant
            n == a@.len(),
            n == b@.len(),
            i <= n,
            forall|j: int| 0 <= j < i ==> #[trigger] ascii_lower(a@[j]) == ascii_lower(b@[j]),
        decreases n - i,
    {
        if to_ascii_lower(a.get_char(i)) != to_ascii_lower(b.get_char(i)) {
            return false;
        }
        i = i + 1;
    }
    true
}

/// Removes every leading copy of `c`, as `str::trim_start_matches` does with a character.
pub fn trim_start(s: &str, c: char) -> (r: &str)
    ensures
        r@ == trim_start_char(s@, c),
{
    let n = s.unicode_len();
    let mut k: usize = 0;
    assert(s@.skip(0) =~= s@);
    while k < n && s.get_char(k) == c
        invariant
            n == s@.len(),
            k <= n,
            trim_start_char(s@.skip(k as int), c) == trim_start_char(s@, c),
        decreases n - k,
    {
        assert(s@.skip(k as int).drop_first() =~= s@.skip(k + 1));
        k = k + 1;
    }
    assert(k < n ==> s@.skip(k as int)[0] == s@[k as int]);
    s.substring_char(k, n)
}

} // verus!
