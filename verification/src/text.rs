//! Text handling for the metadata channel: decimal target-id values and the
//! `target.` key-namespace match.
//!
//! Routing overrides travel through a shared key/value store as strings: the
//! key names a `target.`-namespaced property and the value is the target
//! endpoint id in decimal.  Parsing is total: anything that is not a plain
//! decimal id in range is reported as `None`, which the override store treats
//! as "override withdrawn", never as an error.

use vstd::prelude::*;

verus! {

/// A decimal digit.
pub open spec fn is_dec_digit(c: char) -> bool {
    '0' as u32 <= c as u32 && c as u32 <= '9' as u32
}

/// Numeric value of a decimal digit.
pub open spec fn dec_digit_val(c: char) -> int {
    c as u32 - '0' as u32
}

/// Every character of `s` is a decimal digit.
pub open spec fn is_dec_seq(s: Seq<char>) -> bool {
    forall|i: int| 0 <= i < s.len() ==> is_dec_digit(#[trigger] s[i])
}

/// Value of a digit sequence read most-significant first.
pub open spec fn dec_val(s: Seq<char>) -> int
    decreases s.len(),
{
    if s.len() == 0 {
        0
    } else {
        dec_val(s.drop_last()) * 10 + dec_digit_val(s.last())
    }
}

/// What a metadata value must be to name a target endpoint id: a non-empty
/// all-digit string whose value fits in a `u32`.
pub open spec fn spec_parse_dec(s: Seq<char>) -> Option<u32> {
    if s.len() > 0 && is_dec_seq(s) && dec_val(s) <= u32::MAX {
        Some(dec_val(s) as u32)
    } else {
        None
    }
}

/// The digit character for `d`.
pub open spec fn digit_char(d: int) -> char {
    if d == 0 {
        '0'
    } else if d == 1 {
        '1'
    } else if d == 2 {
        '2'
    } else if d == 3 {
        '3'
    } else if d == 4 {
        '4'
    } else if d == 5 {
        '5'
    } else if d == 6 {
        '6'
    } else if d == 7 {
        '7'
    } else if d == 8 {
        '8'
    } else {
        '9'
    }
}

/// Canonical decimal rendering of `n`, without leading zeros.
pub open spec fn dec_repr(n: nat) -> Seq<char>
    decreases n,
{
    if n < 10 {
        seq![digit_char(n as int)]
    } else {
        dec_repr(n / 10).push(digit_char((n % 10) as int))
    }
}

/// A digit sequence has a non-negative value.
proof fn lemma_dec_val_nonneg(s: Seq<char>)
    requires
        is_dec_seq(s),
    ensures
        dec_val(s) >= 0,
    decreases s.len(),
{
    if s.len() > 0 {
        lemma_dec_val_nonneg(s.drop_last());
    }
}

/// Extending a digit prefix by one digit multiplies its value by ten and adds
/// the digit.
proof fn lemma_dec_val_step(s: Seq<char>, i: int)
    requires
        0 <= i < s.len(),
    ensures
        dec_val(s.subrange(0, i + 1)) == dec_val(s.subrange(0, i)) * 10 + dec_digit_val(s[i]),
{
    assert(s.subrange(0, i + 1).drop_last() =~= s.subrange(0, i));
    assert(s.subrange(0, i + 1).last() == s[i]);
}

/// The value of a digit string is at least the value of any of its prefixes.
proof fn lemma_dec_val_prefix_le(s: Seq<char>, i: int)
    requires
        is_dec_seq(s),
        0 <= i <= s.len(),
    ensures
        dec_val(s.subrange(0, i)) <= dec_val(s),
    decreases s.len() - i,
{
    if i == s.len() {
        assert(s.subrange(0, i) =~= s);
    } else {
        lemma_dec_val_step(s, i);
        let prefix = s.subrange(0, i);
        assert(is_dec_seq(prefix)) by {
            assert(forall|k: int| 0 <= k < prefix.len() ==> prefix[k] == s[k]);
        }
        lemma_dec_val_nonneg(prefix);
        lemma_dec_val_prefix_le(s, i + 1);
    }
}

/// Parses a metadata value as a target endpoint id: a non-empty decimal
/// string whose value fits in a `u32`.  Everything else is `None`.
pub fn parse_target_id(s: &str) -> (r: Option<u32>)
    ensures
        r == spec_parse_dec(s@),
{
    let n = s.unicode_len();
    if n == 0 {
        return None;
    }
    let mut acc: u64 = 0;
    let mut i: usize = 0;
    while i < n
        invariant
            n == s@.len(),
            i <= n,
            is_dec_seq(s@.subrange(0, i as int)),
            acc == dec_val(s@.subrange(0, i as int)),
            acc <= u32::MAX,
        decreases n - i,
    {
        let c = s.get_char(i);
        let cv = c as u32;
        if cv < 48 || cv > 57 {
            proof {
                assert(!is_dec_digit(s@[i as int]));
            }
            return None;
        }
        proof {
            lemma_dec_val_step(s@, i as int);
            assert(is_dec_seq(s@.subrange(0, i + 1 as int))) by {
                assert(forall|k: int|
                    0 <= k < i + 1 ==> s@.subrange(0, i + 1 as int)[k] == s@[k]);
            }
        }
        acc = acc * 10 + ((cv - 48) as u64);
        if acc > (u32::MAX as u64) {
            proof {
                if is_dec_seq(s@) {
                    lemma_dec_val_prefix_le(s@, i + 1 as int);
                }
            }
            return None;
        }
        i = i + 1;
    }
    proof {
        assert(s@.subrange(0, n as int) =~= s@);
    }
    Some(acc as u32)
}

/// The digit character of `d`, as a one-character string slice.
fn digit_str(d: u32) -> (r: &'static str)
    requires
        d < 10,
    ensures
        r@ =~= seq![digit_char(d as int)],
{
    proof {
        reveal_strlit("0");
        reveal_strlit("1");
        reveal_strlit("2");
        reveal_strlit("3");
        reveal_strlit("4");
        reveal_strlit("5");
        reveal_strlit("6");
        reveal_strlit("7");
        reveal_strlit("8");
        reveal_strlit("9");
    }
    if d == 0 {
        "0"
    } else if d == 1 {
        "1"
    } else if d == 2 {
        "2"
    } else if d == 3 {
        "3"
    } else if d == 4 {
        "4"
    } else if d == 5 {
        "5"
    } else if d == 6 {
        "6"
    } else if d == 7 {
        "7"
    } else if d == 8 {
        "8"
    } else {
        "9"
    }
}

/// Renders a target endpoint id as the decimal string carried by an outbound
/// override request.
pub fn render_target_id(n: u32) -> (r: String)
    ensures
        r@ == dec_repr(n as nat),
    decreases n,
{
    if n < 10 {
        String::from_str(digit_str(n))
    } else {
        let mut s = render_target_id(n / 10);
        s.append(digit_str(n % 10));
        proof {
            assert(s@ =~= dec_repr(n as nat));
        }
        s
    }
}

/// A rendered id is a well-formed decimal value.
proof fn lemma_dec_repr_val(n: nat)
    ensures
        dec_repr(n).len() > 0,
        is_dec_seq(dec_repr(n)),
        dec_val(dec_repr(n)) == n,
    decreases n,
{
    if n < 10 {
        let s = dec_repr(n);
        assert(s == seq![digit_char(n as int)]);
        assert(s.len() == 1);
        assert(s.last() == digit_char(n as int));
        assert(s.drop_last() =~= Seq::<char>::empty());
        assert(dec_val(s.drop_last()) == 0);
        assert(dec_digit_val(digit_char(n as int)) == n);
        assert(dec_val(s) == dec_val(s.drop_last()) * 10 + dec_digit_val(s.last()));
    } else {
        lemma_dec_repr_val(n / 10);
        let prefix = dec_repr(n / 10);
        let s = prefix.push(digit_char((n % 10) as int));
        assert(s == dec_repr(n));
        assert(s.drop_last() =~= prefix);
        assert(s.last() == digit_char((n % 10) as int));
        assert(dec_digit_val(digit_char((n % 10) as int)) == n % 10);
        assert(dec_val(s) == dec_val(prefix) * 10 + (n % 10));
        assert(n / 10 * 10 + n % 10 == n);
        assert(forall|k: int| 0 <= k < s.len() ==> is_dec_digit(s[k]));
    }
}

/// Round trip: the decimal value written by an outbound override request
/// parses back to the same target id when it echoes through the metadata
/// channel.
pub proof fn lemma_render_parse_round_trip(n: u32)
    ensures
        spec_parse_dec(dec_repr(n as nat)) == Some(n),
{
    lemma_dec_repr_val(n as nat);
}

/// The `target.` key namespace, as a character sequence.
pub open spec fn target_namespace() -> Seq<char> {
    seq!['t', 'a', 'r', 'g', 'e', 't', '.']
}

/// Whether a metadata key belongs to the routing-target namespace: it
/// contains `target.` as a substring.
pub open spec fn key_matches_namespace(key: Seq<char>) -> bool {
    exists|i: int| 0 <= i && i + 7 <= key.len() && #[trigger] key.subrange(i, i + 7)
        == target_namespace()
}

/// Whether `target.` occurs in `key` starting at position `at`.
fn namespace_at(key: &str, at: usize) -> (r: bool)
    requires
        key@.len() <= usize::MAX,
        at + 7 <= key@.len(),
    ensures
        r == (key@.subrange(at as int, at + 7) == target_namespace()),
{
    let r = key.get_char(at) == 't' && key.get_char(at + 1) == 'a' && key.get_char(at + 2) == 'r'
        && key.get_char(at + 3) == 'g' && key.get_char(at + 4) == 'e' && key.get_char(at + 5)
        == 't' && key.get_char(at + 6) == '.';
    proof {
        let sub = key@.subrange(at as int, at + 7);
        if r {
            assert(sub =~= target_namespace());
        } else {
            assert(sub != target_namespace()) by {
                if sub == target_namespace() {
                    assert(key@[at as int] == sub[0]);
                    assert(key@[at + 1] == sub[1]);
                    assert(key@[at + 2] == sub[2]);
                    assert(key@[at + 3] == sub[3]);
                    assert(key@[at + 4] == sub[4]);
                    assert(key@[at + 5] == sub[5]);
                    assert(key@[at + 6] == sub[6]);
                }
            }
        }
    }
    r
}

/// Decides whether a metadata key belongs to the routing-target namespace.
///
/// The source of metadata events is not required to pre-filter: every key
/// change of the shared store passes through this check.
pub fn key_in_target_namespace(key: &str) -> (r: bool)
    ensures
        r == key_matches_namespace(key@),
{
    let n = key.unicode_len();
    if n < 7 {
        return false;
    }
    let mut i: usize = 0;
    while i <= n - 7
        invariant
            n == key@.len(),
            7 <= n,
            i <= n - 6,
            forall|k: int| 0 <= k < i ==> #[trigger] key@.subrange(k, k + 7)
                != target_namespace(),
        decreases n - i,
    {
        if namespace_at(key, i) {
            return true;
        }
        i = i + 1;
    }
    false
}

} // verus!
