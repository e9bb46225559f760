use vstd::prelude::*;

verus! {

/// The pattern occurs in `s` at position `i`.
pub open spec fn matches_at(s: Seq<char>, pat: Seq<char>, i: int) -> bool {
    &&& 0 <= i
    &&& i + pat.len() <= s.len()
    &&& s.subrange(i, i + pat.len() as int) == pat
}

/// First position at or after `i` where the pattern occurs.
pub open spec fn first_match_from(s: Seq<char>, pat: Seq<char>, i: int) -> Option<int>
    decreases s.len() + 1 - i,
{
    if i < 0 || i + pat.len() > s.len() {
        None
    } else if matches_at(s, pat, i) {
        Some(i)
    } else {
        first_match_from(s, pat, i + 1)
    }
}

/// First position where the pattern occurs, if any.
pub open spec fn first_match(s: Seq<char>, pat: Seq<char>) -> Option<int> {
    first_match_from(s, pat, 0)
}

/// Position of the first character at or after `i` that is not a space.
pub open spec fn skip_spaces(s: Seq<char>, i: int) -> int
    decreases s.len() - i,
{
    if 0 <= i < s.len() && s[i] == ' ' {
        skip_spaces(s, i + 1)
    } else {
        i
    }
}

/// The character is a decimal digit.
pub open spec fn is_digit_char(c: char) -> bool {
    48 <= c as u32 <= 57
}

/// Numeric value of a decimal digit character.
pub open spec fn digit_val(c: char) -> int {
    c as u32 - 48
}

/// Every character of the sequence is a decimal digit.
pub open spec fn all_digits(s: Seq<char>) -> bool {
    forall|k: int| 0 <= k < s.len() ==> is_digit_char(#[trigger] s[k])
}

/// Value of a sequence of decimal digits, most significant first.
pub open spec fn dec_val(s: Seq<char>) -> int
    decreases s.len(),
{
    if s.len() == 0 {
        0
    } else {
        dec_val(s.drop_last()) * 10 + digit_val(s.last())
    }
}

/// The unsigned number written at or after position `i`, after optional
/// leading spaces and reaching to the end of the text: `Some(v)` when what
/// follows the spaces is one or more digits and nothing else, else `None`.
pub open spec fn num_after(s: Seq<char>, i: int) -> Option<int> {
    let j = skip_spaces(s, i);
    if j < s.len() && all_digits(s.subrange(j, s.len() as int)) {
        Some(dec_val(s.subrange(j, s.len() as int)))
    } else {
        None
    }
}

/// As `num_after`, but only when the value fits in a `u64`.
pub open spec fn u64_after(s: Seq<char>, i: int) -> Option<int> {
    match num_after(s, i) {
        Some(v) => if v <= u64::MAX {
            Some(v)
        } else {
            None
        },
        None => None,
    }
}

/// The characters of `s` starting at `i` equal `pat`.
fn eq_at(s: &str, pat: &str, i: usize) -> (b: bool)
    requires
        i + pat@.len() <= s@.len(),
        s@.len() <= usize::MAX,
    ensures
        b == matches_at(s@, pat@, i as int),
{
    let m = pat.unicode_len();
    let mut j: usize = 0;
    while j < m
        invariant
            0 <= j <= m,
            m == pat@.len(),
            i + m <= s@.len(),
            s@.len() <= usize::MAX,
            s@.subrange(i as int, i as int + j as int) == pat@.subrange(0, j as int),
        decreases m - j,
    {
        let c1 = s.get_char(i + j);
        let c2 = pat.get_char(j);
        if c1 != c2 {
            proof {
                assert(s@.subrange(i as int, i as int + m as int)[j as int] == s@[i as int
                    + j as int]);
            }
            return false;
        }
        proof {
            assert(s@.subrange(i as int, i as int + j as int + 1) =~= s@.subrange(
                i as int,
                i as int + j as int,
            ).push(s@[i as int + j as int]));
            assert(pat@.subrange(0, j as int + 1) =~= pat@.subrange(0, j as int).push(
                pat@[j as int],
            ));
        }
        j += 1;
    }
    proof {
        assert(pat@.subrange(0, m as int) =~= pat@);
    }
    true
}

/// Whether `s` begins with `pat`.
pub fn has_prefix(s: &str, pat: &str) -> (b: bool)
    ensures
        b == matches_at(s@, pat@, 0),
{
    if pat.unicode_len() > s.unicode_len() {
        return false;
    }
    eq_at(s, pat, 0)
}

/// First occurrence of `pat` in `s`, as a character position.
pub fn find_pattern(s: &str, pat: &str) -> (r: Option<usize>)
    ensures
        match r {
            Some(i) => first_match(s@, pat@) == Some(i as int) && matches_at(s@, pat@, i as int),
            None => first_match(s@, pat@) is None,
        },
{
    let n = s.unicode_len();
    let m = pat.unicode_len();
    if m > n {
        return None;
    }
    if m == 0 {
        proof {
            assert(s@.subrange(0, 0) =~= pat@);
        }
        return Some(0);
    }
    let mut i: usize = 0;
    while i <= n - m
        invariant
            n == s@.len(),
            m == pat@.len(),
            1 <= m <= n,
            0 <= i <= n - m + 1,
            first_match(s@, pat@) == first_match_from(s@, pat@, i as int),
        decreases n - i,
    {
        if eq_at(s, pat, i) {
            return Some(i);
        }
        i += 1;
    }
    None
}

/// The unsigned number written at or after `from`: optional spaces, then
/// digits to the end of the text, its value fitting in a `u64`.
pub fn parse_u64_after(s: &str, from: usize) -> (r: Option<u64>)
    requires
        from <= s@.len(),
    ensures
        match r {
            Some(v) => u64_after(s@, from as int) == Some(v as int),
            None => u64_after(s@, from as int) is None,
        },
{
    let n = s.unicode_len();
    let mut j = from;
    while j < n && s.get_char(j) == ' '
        invariant
            n == s@.len(),
            from <= j <= n,
            skip_spaces(s@, from as int) == skip_spaces(s@, j as int),
        decreases n - j,
    {
        j += 1;
    }
    proof {
        assert(skip_spaces(s@, from as int) == j as int);
    }
    if j == n {
        return None;
    }
    let ghost jj = j as int;
    let mut i = j;
    let mut acc: u64 = 0;
    let mut over = false;
    while i < n
        invariant
            n == s@.len(),
            jj == j as int,
            skip_spaces(s@, from as int) == jj,
            j <= i <= n,
            j < n,
            all_digits(s@.subrange(jj, i as int)),
            !over ==> acc as int == dec_val(s@.subrange(jj, i as int)),
            over ==> dec_val(s@.subrange(jj, i as int)) > u64::MAX,
        decreases n - i,
    {
        let c = s.get_char(i);
        let cu = c as u32;
        if !(48 <= cu && cu <= 57) {
            proof {
                assert(s@.subrange(jj, s@.len() as int)[i as int - jj] == s@[i as int]);
                assert(!all_digits(s@.subrange(jj, s@.len() as int)));
            }
            return None;
        }
        let d: u64 = (cu - 48) as u64;
        proof {
            assert(s@.subrange(jj, i as int + 1).drop_last() =~= s@.subrange(jj, i as int));
            assert(s@.subrange(jj, i as int + 1).last() == s@[i as int]);
            assert(dec_val(s@.subrange(jj, i as int + 1)) == dec_val(s@.subrange(jj, i as int)) * 10
                + digit_val(s@[i as int]));
        }
        if over {
            proof {
                assert(dec_val(s@.subrange(jj, i as int)) * 10 + digit_val(s@[i as int])
                    > u64::MAX);
            }
        } else if acc <= (u64::MAX - d) / 10 {
            proof {
                assert(acc * 10 + d <= u64::MAX) by (nonlinear_arith)
                    requires
                        acc <= (u64::MAX - d) / 10,
                        d <= 9,
                ;
            }
            acc = acc * 10 + d;
        } else {
            proof {
                assert(acc * 10 + d > u64::MAX) by (nonlinear_arith)
                    requires
                        acc > (u64::MAX - d) / 10,
                        d <= 9,
                ;
            }
            over = true;
        }
        proof {
            let sub1 = s@.subrange(jj, i as int + 1);
            assert(forall|k: int|
                0 <= k < sub1.len() ==> is_digit_char(#[trigger] sub1[k]) == is_digit_char(
                    if k < i as int - jj {
                        s@.subrange(jj, i as int)[k]
                    } else {
                        s@[i as int]
                    },
                ));
        }
        i += 1;
    }
    proof {
        assert(s@.subrange(jj, i as int) == s@.subrange(jj, s@.len() as int));
    }
    if over {
        None
    } else {
        Some(acc)
    }
}

/// First position at or after `i` holding a space, or the end of the text.
pub open spec fn first_space_from(s: Seq<char>, i: int) -> int
    decreases s.len() - i,
{
    if 0 <= i < s.len() && s[i] != ' ' {
        first_space_from(s, i + 1)
    } else {
        i
    }
}

/// The word starting at `from`: the characters up to the next space or the
/// end of the text.
pub fn word_after(s: &str, from: usize) -> (r: String)
    requires
        from <= s@.len(),
    ensures
        r@ == s@.subrange(from as int, first_space_from(s@, from as int)),
{
    let n = s.unicode_len();
    let mut i = from;
    while i < n && s.get_char(i) != ' '
        invariant
            n == s@.len(),
            from <= i <= n,
            first_space_from(s@, from as int) == first_space_from(s@, i as int),
        decreases n - i,
    {
        i += 1;
    }
    substring(s, from, i)
}

/// Whether two texts hold the same characters.
pub fn str_eq(a: &str, b: &str) -> (r: bool)
    ensures
        r == (a@ == b@),
{
    let n = a.unicode_len();
    if n != b.unicode_len() {
        return false;
    }
    let r = eq_at(a, b, 0);
    proof {
        assert(a@.subrange(0, a@.len() as int) =~= a@);
    }
    r
}

/// The characters of `s` from `from` (inclusive) to `to` (exclusive), as an
/// owned string.
pub fn substring(s: &str, from: usize, to: usize) -> (r: String)
    requires
        from <= to <= s@.len(),
    ensures
        r@ == s@.subrange(from as int, to as int),
{
    let sub: &str = s.substring_char(from, to);
    sub.to_owned()
}

} // verus!
