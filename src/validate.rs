//! Acceptance rules and normalisation for the answers typed into the
//! setup wizard.
use vstd::prelude::*;

verus! {

/// The prefix that chat tokens are often copied with.
pub open spec fn oauth_prefix() -> Seq<char> {
    seq!['o', 'a', 'u', 't', 'h', ':']
}

/// `s` begins with `p`.
pub open spec fn starts_with(s: Seq<char>, p: Seq<char>) -> bool {
    p.len() <= s.len() && s.subrange(0, p.len() as int) == p
}

/// The token with one leading `oauth:` removed, if it has one.
pub open spec fn strip_oauth(s: Seq<char>) -> Seq<char> {
    if starts_with(s, oauth_prefix()) {
        s.subrange(6, s.len() as int)
    } else {
        s
    }
}

/// Removes a leading `oauth:` from a chat token.
pub fn normalize_oauth(token: String) -> (r: String)
    ensures
        r@ == strip_oauth(token@),
{
    let s = token.as_str();
    let n = s.unicode_len();
    if n >= 6 && s.get_char(0) == 'o' && s.get_char(1) == 'a' && s.get_char(2) == 'u'
        && s.get_char(3) == 't' && s.get_char(4) == 'h' && s.get_char(5) == ':' {
        assert(s@.subrange(0, 6) =~= oauth_prefix());
        s.substring_char(6, n).to_string()
    } else {
        proof {
            if starts_with(token@, oauth_prefix()) {
                assert(token@[0] == token@.subrange(0, 6)[0]);
                assert(token@[1] == token@.subrange(0, 6)[1]);
                assert(token@[2] == token@.subrange(0, 6)[2]);
                assert(token@[3] == token@.subrange(0, 6)[3]);
                assert(token@[4] == token@.subrange(0, 6)[4]);
                assert(token@[5] == token@.subrange(0, 6)[5]);
            }
        }
        token
    }
}

/// A token given with the prefix is stored without it.
pub proof fn lemma_oauth_prefix_removed(s: Seq<char>)
    ensures
        strip_oauth(oauth_prefix() + s) == s,
{
    let t = oauth_prefix() + s;
    assert(t.subrange(0, 6) =~= oauth_prefix());
    assert(t.subrange(6, t.len() as int) =~= s);
}

/// A token given without the prefix is stored as it is.
pub proof fn lemma_oauth_plain_kept(s: Seq<char>)
    requires
        !starts_with(s, oauth_prefix()),
    ensures
        strip_oauth(s) == s,
{
}

/// Normalising a token twice is normalising it once, unless the token
/// carries the prefix twice over.
pub proof fn lemma_oauth_idempotent(s: Seq<char>)
    requires
        !starts_with(s, oauth_prefix() + oauth_prefix()),
    ensures
        strip_oauth(strip_oauth(s)) == strip_oauth(s),
{
    if starts_with(s, oauth_prefix()) {
        let t = s.subrange(6, s.len() as int);
        if starts_with(t, oauth_prefix()) {
            assert(s.subrange(0, 12) =~= oauth_prefix() + oauth_prefix()) by {
                assert forall|i: int| 0 <= i < 12 implies s.subrange(0, 12)[i] == (
                oauth_prefix() + oauth_prefix())[i] by {
                    if i < 6 {
                        assert(s[i] == s.subrange(0, 6)[i]);
                    } else {
                        assert(s[i] == t.subrange(0, 6)[i - 6]);
                    }
                }
            }
        }
    }
}

// ---- Yes / no questions ----
/// The answer to a yes / no question: `y` or `n` in either case.
pub open spec fn gate_answer_spec(s: Seq<char>) -> Option<bool> {
    if s == seq!['y'] || s == seq!['Y'] {
        Some(true)
    } else if s == seq!['n'] || s == seq!['N'] {
        Some(false)
    } else {
        None
    }
}

/// Reads the answer to a yes / no question; `None` for anything but `y`,
/// `Y`, `n` or `N`.
pub fn gate_answer(s: &str) -> (r: Option<bool>)
    ensures
        r == gate_answer_spec(s@),
{
    if s.unicode_len() != 1 {
        return None;
    }
    let c = s.get_char(0);
    assert(s@ =~= seq![c]);
    if c == 'y' || c == 'Y' {
        Some(true)
    } else if c == 'n' || c == 'N' {
        Some(false)
    } else {
        None
    }
}

// ---- Command cooldown ----
/// `s` is a non-empty run of decimal digits.
pub open spec fn is_digits(s: Seq<char>) -> bool {
    s.len() > 0 && forall|i: int| 0 <= i < s.len() ==> '0' <= #[trigger] s[i] <= '9'
}

/// The number that the decimal digits `s` write.
pub open spec fn digits_value(s: Seq<char>) -> int
    decreases s.len(),
{
    if s.len() == 0 {
        0
    } else {
        digits_value(s.drop_last()) * 10 + (s.last() as int - '0' as int)
    }
}

/// The digits of a number written with an optional leading `+`.
pub open spec fn unsigned_digits(s: Seq<char>) -> Seq<char> {
    if s.len() > 0 && s[0] == '+' {
        s.drop_first()
    } else {
        s
    }
}

/// The cooldown, in seconds, that the answer `s` gives: a whole number
/// from 0 to 65535, in decimal, optionally preceded by `+`.
pub open spec fn cooldown_spec(s: Seq<char>) -> Option<u16> {
    let d = unsigned_digits(s);
    if is_digits(d) && digits_value(d) <= 65535 {
        Some(digits_value(d) as u16)
    } else {
        None
    }
}

proof fn lemma_digits_value_grows(s: Seq<char>)
    requires
        forall|i: int| 0 <= i < s.len() ==> '0' <= #[trigger] s[i] <= '9',
        s.len() > 0,
    ensures
        digits_value(s) >= digits_value(s.drop_last()),
        digits_value(s.drop_last()) >= 0,
    decreases s.len(),
{
    let p = s.drop_last();
    if p.len() > 0 {
        assert(forall|i: int| 0 <= i < p.len() ==> p[i] == s[i]);
        lemma_digits_value_grows(p);
    }
}

proof fn lemma_digits_value_prefix(s: Seq<char>, k: int)
    requires
        is_digits(s),
        0 < k <= s.len(),
    ensures
        digits_value(s) >= digits_value(s.subrange(0, k)),
    decreases s.len(),
{
    if k < s.len() {
        let p = s.drop_last();
        assert(is_digits(p)) by {
            assert(forall|i: int| 0 <= i < p.len() ==> p[i] == s[i]);
        }
        lemma_digits_value_prefix(p, k);
        assert(p.subrange(0, k) =~= s.subrange(0, k));
        lemma_digits_value_grows(s);
    } else {
        assert(s.subrange(0, k) =~= s);
    }
}

/// Reads a command cooldown; `None` when the answer is not a whole number
/// from 0 to 65535.
pub fn parse_cooldown(s: &str) -> (r: Option<u16>)
    ensures
        r == cooldown_spec(s@),
{
    let n = s.unicode_len();
    let start: usize = if n > 0 && s.get_char(0) == '+' {
        1
    } else {
        0
    };
    let ghost d = unsigned_digits(s@);
    assert(d =~= s@.subrange(start as int, n as int));
    if start == n {
        return None;
    }
    let mut value: u32 = 0;
    let mut i: usize = start;
    while i < n
        invariant
            start <= i <= n,
            n == s@.len(),
            d == s@.subrange(start as int, n as int),
            d == unsigned_digits(s@),
            value <= 65535,
            value == digits_value(s@.subrange(start as int, i as int)),
            forall|k: int| start <= k < i ==> '0' <= #[trigger] s@[k] <= '9',
        decreases n - i,
    {
        let c = s.get_char(i);
        if c < '0' || c > '9' {
            assert(d[i - start] == c);
            assert(!is_digits(d));
            return None;
        }
        let ghost p = s@.subrange(start as int, i + 1);
        assert(p.drop_last() =~= s@.subrange(start as int, i as int));
        assert(p.last() == c);
        let next = value * 10 + (c as u32 - '0' as u32);
        if next > 65535 {
            proof {
                assert forall|k: int| 0 <= k < p.len() implies '0' <= #[trigger] p[k] <= '9' by {
                    assert(p[k] == s@[start + k]);
                }
                assert(digits_value(p) == next);
                if is_digits(d) {
                    lemma_digits_value_prefix(d, i + 1 - start);
                    assert(d.subrange(0, i + 1 - start) =~= p);
                }
            }
            return None;
        }
        value = next;
        i = i + 1;
    }
    assert(d =~= s@.subrange(start as int, i as int));
    Some(value as u16)
}

/// A negative number is never a cooldown.
pub proof fn lemma_cooldown_negative_rejected(s: Seq<char>)
    requires
        s.len() > 0,
        s[0] == '-',
    ensures
        cooldown_spec(s) is None,
{
    assert(!('0' <= unsigned_digits(s)[0] <= '9'));
}

/// A number above 65535 is never a cooldown.
pub proof fn lemma_cooldown_too_large_rejected(s: Seq<char>)
    requires
        is_digits(unsigned_digits(s)),
        digits_value(unsigned_digits(s)) > 65535,
    ensures
        cooldown_spec(s) is None,
{
}

/// An answer holding anything but decimal digits, after an optional
/// leading `+`, is never a cooldown.
pub proof fn lemma_cooldown_non_numeric_rejected(s: Seq<char>, i: int)
    requires
        0 <= i < unsigned_digits(s).len(),
        !('0' <= unsigned_digits(s)[i] <= '9'),
    ensures
        cooldown_spec(s) is None,
{
}

} // verus!
