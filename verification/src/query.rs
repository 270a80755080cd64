//! The text of a query before it is parsed: surrounding whitespace is cut
//! off, and a query of whitespace alone is refused.

use vstd::prelude::*;
use crate::FormatError;

verus! {

/// Whether `c` is whitespace: a character with the Unicode property
/// White_Space.
pub open spec fn is_whitespace(c: char) -> bool {
    let v = c as u32;
    ||| 0x09 <= v <= 0x0d
    ||| v == 0x20
    ||| v == 0x85
    ||| v == 0xa0
    ||| v == 0x1680
    ||| 0x2000 <= v <= 0x200a
    ||| v == 0x2028
    ||| v == 0x2029
    ||| v == 0x202f
    ||| v == 0x205f
    ||| v == 0x3000
}

/// Whether `s` holds nothing but whitespace.
pub open spec fn is_blank(s: Seq<char>) -> bool {
    forall|i: int| 0 <= i < s.len() ==> is_whitespace(#[trigger] s[i])
}

/// The number of whitespace characters at the start of `s`.
pub open spec fn leading_whitespace(s: Seq<char>) -> nat
    decreases s.len(),
{
    if s.len() == 0 || !is_whitespace(s.first()) {
        0
    } else {
        1 + leading_whitespace(s.drop_first())
    }
}

/// The number of whitespace characters at the end of `s`.
pub open spec fn trailing_whitespace(s: Seq<char>) -> nat
    decreases s.len(),
{
    if s.len() == 0 || !is_whitespace(s.last()) {
        0
    } else {
        1 + trailing_whitespace(s.drop_last())
    }
}

/// `s` without the whitespace at its start and at its end.
pub open spec fn trimmed(s: Seq<char>) -> Seq<char> {
    if is_blank(s) {
        Seq::empty()
    } else {
        s.subrange(leading_whitespace(s) as int, s.len() - trailing_whitespace(s))
    }
}

/// Where the first `n` characters of `s` are whitespace and the next one, if
/// there is one, is not, `s` starts with exactly `n` whitespace characters.
proof fn lemma_leading(s: Seq<char>, n: int)
    requires
        0 <= n <= s.len(),
        forall|i: int| 0 <= i < n ==> is_whitespace(#[trigger] s[i]),
        n < s.len() ==> !is_whitespace(s[n]),
    ensures
        leading_whitespace(s) == n,
    decreases n,
{
    if n > 0 {
        let rest = s.drop_first();
        assert forall|i: int| 0 <= i < n - 1 implies is_whitespace(#[trigger] rest[i]) by {
            assert(rest[i] == s[i + 1]);
        }
        if n - 1 < rest.len() {
            assert(rest[n - 1] == s[n]);
        }
        lemma_leading(rest, n - 1);
    }
}

/// Where the last `n` characters of `s` are whitespace and the one before
/// them, if there is one, is not, `s` ends with exactly `n` whitespace
/// characters.
proof fn lemma_trailing(s: Seq<char>, n: int)
    requires
        0 <= n <= s.len(),
        forall|i: int| s.len() - n <= i < s.len() ==> is_whitespace(#[trigger] s[i]),
        n < s.len() ==> !is_whitespace(s[s.len() - n - 1]),
    ensures
        trailing_whitespace(s) == n,
    decreases n,
{
    if n > 0 {
        let rest = s.drop_last();
        assert forall|i: int| rest.len() - (n - 1) <= i < rest.len() implies is_whitespace(
            #[trigger] rest[i],
        ) by {
            assert(rest[i] == s[i]);
        }
        if n - 1 < rest.len() {
            assert(rest[rest.len() - (n - 1) - 1] == s[s.len() - n - 1]);
        }
        lemma_trailing(rest, n - 1);
    }
}

fn char_is_whitespace(c: char) -> (res: bool)
    ensures
        res == is_whitespace(c),
{
    let v = c as u32;
    (0x09 <= v && v <= 0x0d) || v == 0x20 || v == 0x85 || v == 0xa0 || v == 0x1680 || (0x2000 <= v
        && v <= 0x200a) || v == 0x2028 || v == 0x2029 || v == 0x202f || v == 0x205f || v == 0x3000
}

/// The query without the whitespace around it.
///
/// A query that holds nothing but whitespace, or nothing at all, is refused
/// with [`FormatError::EmptyQuery`]; every other query is accepted.
pub fn query_body(query: &str) -> (res: Result<&str, FormatError>)
    ensures
        match res {
            Ok(body) => !is_blank(query@) && body@ == trimmed(query@),
            Err(e) => is_blank(query@) && e is EmptyQuery,
        },
{
    let total = query.unicode_len();
    let mut count: usize = 0;
    let mut first: usize = 0;
    let mut end: usize = 0;
    let mut seen = false;
    for ch in it: query.chars()
        invariant
            it.seq() == query@,
            count == it.index(),
            total == query@.len(),
            seen == !is_blank(query@.take(count as int)),
            seen ==> first < end <= count,
            seen ==> !is_whitespace(query@[first as int]) && !is_whitespace(query@[end - 1]),
            seen ==> forall|i: int| 0 <= i < first ==> is_whitespace(#[trigger] query@[i]),
            seen ==> forall|i: int| end <= i < count ==> is_whitespace(#[trigger] query@[i]),
    {
        let ghost index = count as int;
        proof {
            let before = query@.take(index);
            let after = query@.take(index + 1);
            assert(after[index] == query@[index]);
            assert(forall|i: int| 0 <= i < index ==> before[i] == after[i]);
            assert(ch == query@[index]);
            if !seen {
                assert forall|i: int| 0 <= i < index implies is_whitespace(#[trigger] query@[i]) by {
                    assert(before[i] == query@[i]);
                }
            }
        }
        let blank = char_is_whitespace(ch);
        assert(count < total);
        if !blank {
            if !seen {
                first = count;
                seen = true;
            }
            end = count + 1;
        }
        count += 1;
        proof {
            let after = query@.take(index + 1);
            if !blank {
                assert(!is_whitespace(after[index]));
            } else if !seen {
                assert forall|i: int| 0 <= i < after.len() implies is_whitespace(
                    #[trigger] after[i],
                ) by {
                    if i < index {
                        assert(query@.take(index)[i] == after[i]);
                    }
                }
            } else {
                assert(after[first as int] == query@[first as int]);
            }
        }
    }
    proof {
        assert(query@.take(query@.len() as int) =~= query@);
    }
    if !seen {
        return Err(FormatError::EmptyQuery);
    }
    proof {
        lemma_leading(query@, first as int);
        lemma_trailing(query@, query@.len() - end);
    }
    Ok(query.substring_char(first, end))
}

} // verus!
