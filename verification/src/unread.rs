use vstd::prelude::*;

use crate::text::{
    decimal, lemma_decimal_roundtrip,
    all_ascii_digits, chars_of, decimal_value, digit_value, is_ascii_digit, is_white_space,
    is_white_space_char,
};

verus! {

/// The largest unread count that the library reports; larger counts are clamped to it.
pub const MAX_UNREAD: u32 = 9999;

/// `k` is the position of the first `)` in `t`.
pub open spec fn is_first_close(t: Seq<char>, k: int) -> bool {
    &&& 0 <= k < t.len()
    &&& t[k] == ')'
    &&& forall|j: int| 0 <= j < k ==> t[j] != ')'
}

/// The position of the first `)` in `t`, where there is one.
pub open spec fn first_close(t: Seq<char>) -> int {
    choose|k: int| is_first_close(t, k)
}

/// `n` is the number of white-space characters that open `s`.
pub open spec fn is_leading_white_space(s: Seq<char>, n: int) -> bool {
    &&& 0 <= n <= s.len()
    &&& forall|j: int| 0 <= j < n ==> is_white_space(#[trigger] s[j])
    &&& (n == s.len() || !is_white_space(s[n]))
}

/// `s` without its leading white space, as `str::trim_start` gives it.
pub open spec fn trim_start(s: Seq<char>) -> Seq<char> {
    s.skip(choose|n: int| is_leading_white_space(s, n))
}

/// `p` is a prefix of `s`.
pub open spec fn starts_with(s: Seq<char>, p: Seq<char>) -> bool {
    p.len() <= s.len() && s.take(p.len() as int) == p
}

/// The unread count that a WhatsApp Web window title announces.
///
/// A title announces a count when it is `(`, then one or more ASCII digits, then `)`,
/// then text that starts with `WhatsApp` once leading white space is dropped.
/// The count is the number that the digits write, clamped to `MAX_UNREAD`;
/// every other title announces zero.
pub open spec fn unread_count_of(t: Seq<char>) -> int {
    if t.len() == 0 || t[0] != '(' || !(exists|k: int| #[trigger] is_first_close(t, k)) {
        0
    } else {
        let c = first_close(t);
        let digits = t.subrange(1, c);
        let rest = t.skip(c + 1);
        if digits.len() == 0 || !all_ascii_digits(digits) || !starts_with(
            trim_start(rest),
            "WhatsApp"@,
        ) {
            0
        } else if decimal_value(digits) > MAX_UNREAD {
            MAX_UNREAD as int
        } else {
            decimal_value(digits)
        }
    }
}

proof fn lemma_first_close_unique(t: Seq<char>, a: int, b: int)
    requires
        is_first_close(t, a),
        is_first_close(t, b),
    ensures
        a == b,
{
    if a < b {
        assert(t[a] != ')');
    } else if b < a {
        assert(t[b] != ')');
    }
}

proof fn lemma_leading_white_space_unique(s: Seq<char>, a: int, b: int)
    requires
        is_leading_white_space(s, a),
        is_leading_white_space(s, b),
    ensures
        a == b,
{
    if a < b {
        assert(is_white_space(s[a]));
    } else if b < a {
        assert(is_white_space(s[b]));
    }
}

/// A title that announces `n` unread chats the way WhatsApp Web writes it,
/// `(n) WhatsApp`, is read back as `n`, clamped to `MAX_UNREAD`.
pub proof fn law_announced_count_is_read_back(n: nat)
    ensures
        unread_count_of("("@ + decimal(n) + ") WhatsApp"@) == if n > MAX_UNREAD {
            MAX_UNREAD as int
        } else {
            n as int
        },
{
    reveal_strlit("(");
    reveal_strlit(") WhatsApp");
    reveal_strlit("WhatsApp");
    lemma_decimal_roundtrip(n);
    let d = decimal(n);
    let t = "("@ + d + ") WhatsApp"@;
    let c: int = d.len() as int + 1;
    assert(t[0] == '(');
    assert forall|j: int| 0 <= j < c implies t[j] != ')' by {
        if j > 0 {
            assert(t[j] == d[j - 1]);
            assert(is_ascii_digit(d[j - 1]));
        }
    }
    assert(is_first_close(t, c));
    lemma_first_close_unique(t, first_close(t), c);
    assert(t.subrange(1, c) =~= d);
    let rest = t.skip(c + 1);
    reveal_strlit(" WhatsApp");
    assert(rest =~= " WhatsApp"@);
    assert(is_white_space(rest[0]));
    assert(!is_white_space(rest[1]));
    assert(is_leading_white_space(rest, 1));
    lemma_leading_white_space_unique(rest, choose|w: int| is_leading_white_space(rest, w), 1);
    assert(trim_start(rest).take(8) =~= "WhatsApp"@);
}

/// Reads the unread count from a WhatsApp Web window title such as `(3) WhatsApp`.
pub fn parse_unread_count(title: &str) -> (count: u32)
    ensures
        count == unread_count_of(title@),
        count <= MAX_UNREAD,
{
    let t = chars_of(title);
    let n = t.len();
    if n == 0 || t[0] != '(' {
        return 0;
    }
    let mut c: usize = 1;
    while c < n && t[c] != ')'
        invariant
            n == t@.len(),
            t@ == title@,
            t@[0] == '(',
            1 <= c <= n,
            forall|j: int| 0 <= j < c ==> t@[j] != ')',
        decreases n - c,
    {
        c = c + 1;
    }
    if c == n {
        assert forall|k: int| !is_first_close(t@, k) by {
            if 0 <= k < n {
                assert(t@[k] != ')');
            }
        }
        return 0;
    }
    assert(is_first_close(t@, c as int));
    proof {
        let k = first_close(t@);
        lemma_first_close_unique(t@, k, c as int);
    }
    let ghost digits = t@.subrange(1, c as int);
    let ghost rest = t@.skip(c + 1);
    if c == 1 {
        return 0;
    }
    // Read the digits, clamping the value once it passes the limit.
    let mut i: usize = 1;
    let mut acc: u32 = 0;
    while i < c
        invariant
            n == t@.len(),
            t@ == title@,
            t@[0] == '(',
            is_first_close(t@, c as int),
            first_close(t@) == c,
            1 <= i <= c < n,
            all_ascii_digits(t@.subrange(1, i as int)),
            decimal_value(t@.subrange(1, i as int)) >= 0,
            acc == (if decimal_value(t@.subrange(1, i as int)) >= 10000 {
                10000
            } else {
                decimal_value(t@.subrange(1, i as int))
            }),
        decreases c - i,
    {
        let ch = t[i];
        if !('0' <= ch && ch <= '9') {
            assert(!all_ascii_digits(t@.subrange(1, c as int))) by {
                assert(t@.subrange(1, c as int)[i - 1] == ch);
            }
            return 0;
        }
        let d = (ch as u32) - ('0' as u32);
        let ghost before = t@.subrange(1, i as int);
        let ghost after = t@.subrange(1, i + 1);
        assert(after.drop_last() =~= before);
        assert(after.last() == ch);
        assert(decimal_value(after) == decimal_value(before) * 10 + digit_value(ch));
        if acc < 10000 {
            let v = acc * 10 + d;
            acc = if v >= 10000 {
                10000
            } else {
                v
            };
        }
        i = i + 1;
        assert(all_ascii_digits(t@.subrange(1, i as int))) by {
            assert forall|j: int| 0 <= j < after.len() implies is_ascii_digit(#[trigger] after[j]) by {
                if j < before.len() {
                    assert(after[j] == before[j]);
                }
            }
        }
    }
    assert(digits =~= t@.subrange(1, c as int));
    // Skip the white space after `)`.
    let mut m: usize = c + 1;
    while m < n && is_white_space_char(t[m])
        invariant
            n == t@.len(),
            c + 1 <= m <= n,
            forall|j: int| c + 1 <= j < m ==> is_white_space(#[trigger] t@[j]),
        decreases n - m,
    {
        m = m + 1;
    }
    proof {
        assert(is_leading_white_space(rest, m - (c + 1))) by {
            assert forall|j: int| 0 <= j < m - (c + 1) implies is_white_space(#[trigger] rest[j]) by {
                assert(rest[j] == t@[j + c + 1]);
            }
        }
        let w = choose|w: int| is_leading_white_space(rest, w);
        lemma_leading_white_space_unique(rest, w, m - (c + 1));
        assert(trim_start(rest) =~= t@.skip(m as int));
    }
    let word = chars_of("WhatsApp");
    proof {
        reveal_strlit("WhatsApp");
    }
    let wl = word.len();
    if n - m < wl {
        return 0;
    }
    let mut j: usize = 0;
    while j < wl
        invariant
            n == t@.len(),
            t@ == title@,
            t@[0] == '(',
            is_first_close(t@, c as int),
            first_close(t@) == c,
            trim_start(rest) == t@.skip(m as int),
            rest == t@.skip(c + 1),
            digits == t@.subrange(1, c as int),
            word@ == "WhatsApp"@,
            all_ascii_digits(digits),
            c > 1,
            wl == word@.len(),
            m + wl <= n,
            j <= wl,
            forall|q: int| 0 <= q < j ==> t@[m + q] == word@[q],
        decreases wl - j,
    {
        if t[m + j] != word[j] {
            assert(!starts_with(t@.skip(m as int), word@)) by {
                assert(t@.skip(m as int).take(wl as int)[j as int] == t@[m + j]);
            }
            return 0;
        }
        j = j + 1;
    }
    assert(t@.skip(m as int).take(wl as int) =~= word@);
    if acc > MAX_UNREAD {
        MAX_UNREAD
    } else {
        acc
    }
}

} // verus!
