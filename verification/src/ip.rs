//! Textual classification of IP addresses into the two families. The grammar
//! of each family is stated as a character-by-character transition function,
//! and the checkers are proved to accept exactly the words that the grammar
//! accepts.
//!
//! IPv4: four decimal octets `0..=255` separated by `.`, no leading zeros.
//! IPv6: hexadecimal groups of one to four digits separated by `:`, either
//! eight groups, or fewer with exactly one `::` compression; the forms with an
//! embedded dotted quad or a zone suffix are not part of this grammar.

use vstd::prelude::*;

verus! {

use vstd::string::StrSliceExecFns;

/// Decimal digit test.
pub open spec fn is_dec_digit(c: char) -> bool {
    '0' <= c && c <= '9'
}

/// Value of a decimal digit.
pub open spec fn dec_digit_val(c: char) -> u16 {
    (c as u32 - '0' as u32) as u16
}

/// Hexadecimal digit test, either case.
pub open spec fn is_hex_digit(c: char) -> bool {
    ('0' <= c && c <= '9') || ('a' <= c && c <= 'f') || ('A' <= c && c <= 'F')
}

/// Scanner state while reading a dotted-quad IPv4 address: the number of
/// separators passed, and the shape of the octet being read.
pub struct V4State {
    /// A character outside the grammar has been seen.
    pub dead: bool,
    /// Number of `.` separators read so far.
    pub dots: u8,
    /// Number of digits of the current octet read so far.
    pub digits: u8,
    /// Value of the current octet so far.
    pub value: u16,
    /// The current octet started with `0`.
    pub lead_zero: bool,
}

/// The state before any character is read.
pub open spec fn v4_init() -> V4State {
    V4State { dead: false, dots: 0, digits: 0, value: 0, lead_zero: false }
}

/// One character of the IPv4 grammar: a digit extends the current octet
/// (refusing a fourth digit, a value above 255 and a digit after a leading
/// zero), a dot closes a non-empty octet (at most three dots), anything else
/// leaves the grammar.
pub open spec fn v4_step(st: V4State, c: char) -> V4State {
    if st.dead {
        st
    } else if is_dec_digit(c) {
        if st.digits == 0 {
            V4State { digits: 1, value: dec_digit_val(c), lead_zero: c == '0', ..st }
        } else if st.lead_zero || st.digits >= 3 || st.value * 10 + dec_digit_val(c) > 255 {
            V4State { dead: true, ..st }
        } else {
            V4State { digits: (st.digits + 1) as u8, value: (st.value * 10 + dec_digit_val(c)) as u16, ..st }
        }
    } else if c == '.' {
        if st.digits == 0 || st.dots >= 3 {
            V4State { dead: true, ..st }
        } else {
            V4State { dots: (st.dots + 1) as u8, digits: 0, value: 0, lead_zero: false, ..st }
        }
    } else {
        V4State { dead: true, ..st }
    }
}

/// The state after reading all of `s`.
pub open spec fn v4_run(s: Seq<char>) -> V4State
    decreases s.len(),
{
    if s.len() == 0 {
        v4_init()
    } else {
        v4_step(v4_run(s.drop_last()), s.last())
    }
}

/// A final state is accepting when three separators were passed and a fourth
/// octet is open.
pub open spec fn v4_accepts(st: V4State) -> bool {
    !st.dead && st.dots == 3 && st.digits > 0
}

/// The words of the IPv4 grammar.
pub open spec fn is_ipv4_chars(s: Seq<char>) -> bool {
    v4_accepts(v4_run(s))
}

/// Executable mirror of `v4_step`.
fn v4_step_exec(st: V4State, c: char) -> (r: V4State)
    ensures
        r == v4_step(st, c),
{
    if st.dead {
        st
    } else if '0' <= c && c <= '9' {
        let d: u16 = ((c as u32) - ('0' as u32)) as u16;
        if st.digits == 0 {
            V4State { digits: 1, value: d, lead_zero: c == '0', ..st }
        } else if st.lead_zero || st.digits >= 3 || st.value > 25 || st.value * 10 + d > 255 {
            let r = V4State { dead: true, ..st };
            proof {
                assert(st.value > 25 ==> st.value * 10 + dec_digit_val(c) > 255);
            }
            r
        } else {
            V4State { digits: st.digits + 1, value: st.value * 10 + d, ..st }
        }
    } else if c == '.' {
        if st.digits == 0 || st.dots >= 3 {
            V4State { dead: true, ..st }
        } else {
            V4State { dots: st.dots + 1, digits: 0, value: 0, lead_zero: false, ..st }
        }
    } else {
        V4State { dead: true, ..st }
    }
}

/// True exactly when `s` is a dotted-quad IPv4 address.
pub fn is_ipv4_str(s: &str) -> (r: bool)
    ensures
        r == is_ipv4_chars(s@),
{
    let len = s.unicode_len();
    let mut st = V4State { dead: false, dots: 0, digits: 0, value: 0, lead_zero: false };
    let mut i: usize = 0;
    while i < len
        invariant
            len == s@.len(),
            0 <= i <= len,
            st == v4_run(s@.subrange(0, i as int)),
        decreases len - i,
    {
        let c = s.get_char(i);
        proof {
            assert(s@.subrange(0, i + 1).drop_last() =~= s@.subrange(0, i as int));
            assert(s@.subrange(0, i + 1).last() == s@[i as int]);
        }
        st = v4_step_exec(st, c);
        i += 1;
    }
    proof {
        assert(s@.subrange(0, len as int) =~= s@);
    }
    !st.dead && st.dots == 3 && st.digits > 0
}

/// What the last character read of an IPv6 word was.
pub enum V6Last {
    /// Nothing read yet.
    Start,
    /// A hexadecimal digit: a group is open.
    Digit,
    /// A single separator after a closed group.
    Colon,
    /// A single separator opening the word, legal only as half of `::`.
    OpenColon,
    /// The `::` compression.
    DoubleColon,
}

/// Scanner state while reading a hexadecimal-groups IPv6 address.
pub struct V6State {
    /// A character outside the grammar has been seen.
    pub dead: bool,
    /// Number of groups closed by a following separator.
    pub groups: u8,
    /// Number of digits of the currently open group.
    pub digits: u8,
    /// A `::` compression has been read.
    pub compressed: bool,
    /// The kind of the last character read.
    pub last: V6Last,
}

/// The state before any character is read.
pub open spec fn v6_init() -> V6State {
    V6State { dead: false, groups: 0, digits: 0, compressed: false, last: V6Last::Start }
}

/// One character of the IPv6 grammar: a hexadecimal digit opens or extends a
/// group of at most four digits; a separator closes a group, or doubles into
/// the single allowed `::` compression.
pub open spec fn v6_step(st: V6State, c: char) -> V6State {
    if st.dead {
        st
    } else if is_hex_digit(c) {
        match st.last {
            V6Last::Start => V6State { digits: 1, last: V6Last::Digit, ..st },
            V6Last::Digit => if st.digits >= 4 {
                V6State { dead: true, ..st }
            } else {
                V6State { digits: (st.digits + 1) as u8, ..st }
            },
            V6Last::Colon => V6State { digits: 1, last: V6Last::Digit, ..st },
            V6Last::OpenColon => V6State { dead: true, ..st },
            V6Last::DoubleColon => V6State { digits: 1, last: V6Last::Digit, ..st },
        }
    } else if c == ':' {
        match st.last {
            V6Last::Start => V6State { last: V6Last::OpenColon, ..st },
            V6Last::Digit => if st.groups >= 8 {
                V6State { dead: true, ..st }
            } else {
                V6State { groups: (st.groups + 1) as u8, digits: 0, last: V6Last::Colon, ..st }
            },
            V6Last::Colon => if st.compressed {
                V6State { dead: true, ..st }
            } else {
                V6State { compressed: true, last: V6Last::DoubleColon, ..st }
            },
            V6Last::OpenColon => V6State { compressed: true, last: V6Last::DoubleColon, ..st },
            V6Last::DoubleColon => V6State { dead: true, ..st },
        }
    } else {
        V6State { dead: true, ..st }
    }
}

/// The state after reading all of `s`.
pub open spec fn v6_run(s: Seq<char>) -> V6State
    decreases s.len(),
{
    if s.len() == 0 {
        v6_init()
    } else {
        v6_step(v6_run(s.drop_last()), s.last())
    }
}

/// A final state is accepting when it ends in a group with seven closed ones
/// and no compression, or when one `::` stands in for the missing groups:
/// then at most seven groups may be written in all.
pub open spec fn v6_accepts(st: V6State) -> bool {
    !st.dead && if st.compressed {
        (st.last is DoubleColon && st.groups <= 7) || (st.last is Digit && st.groups <= 6)
    } else {
        st.last is Digit && st.groups == 7
    }
}

/// The words of the IPv6 grammar.
pub open spec fn is_ipv6_chars(s: Seq<char>) -> bool {
    v6_accepts(v6_run(s))
}

/// Executable mirror of `v6_step`.
fn v6_step_exec(st: V6State, c: char) -> (r: V6State)
    ensures
        r == v6_step(st, c),
{
    if st.dead {
        st
    } else if ('0' <= c && c <= '9') || ('a' <= c && c <= 'f') || ('A' <= c && c <= 'F') {
        match st.last {
            V6Last::Start => V6State { digits: 1, last: V6Last::Digit, ..st },
            V6Last::Digit => if st.digits >= 4 {
                V6State { dead: true, ..st }
            } else {
                V6State { digits: st.digits + 1, ..st }
            },
            V6Last::Colon => V6State { digits: 1, last: V6Last::Digit, ..st },
            V6Last::OpenColon => V6State { dead: true, ..st },
            V6Last::DoubleColon => V6State { digits: 1, last: V6Last::Digit, ..st },
        }
    } else if c == ':' {
        match st.last {
            V6Last::Start => V6State { last: V6Last::OpenColon, ..st },
            V6Last::Digit => if st.groups >= 8 {
                V6State { dead: true, ..st }
            } else {
                V6State { groups: st.groups + 1, digits: 0, last: V6Last::Colon, ..st }
            },
            V6Last::Colon => if st.compressed {
                V6State { dead: true, ..st }
            } else {
                V6State { compressed: true, last: V6Last::DoubleColon, ..st }
            },
            V6Last::OpenColon => V6State { compressed: true, last: V6Last::DoubleColon, ..st },
            V6Last::DoubleColon => V6State { dead: true, ..st },
        }
    } else {
        V6State { dead: true, ..st }
    }
}

/// True exactly when `s` is a hexadecimal-groups IPv6 address.
pub fn is_ipv6_str(s: &str) -> (r: bool)
    ensures
        r == is_ipv6_chars(s@),
{
    let len = s.unicode_len();
    let mut st = V6State { dead: false, groups: 0, digits: 0, compressed: false, last: V6Last::Start };
    let mut i: usize = 0;
    while i < len
        invariant
            len == s@.len(),
            0 <= i <= len,
            st == v6_run(s@.subrange(0, i as int)),
        decreases len - i,
    {
        let c = s.get_char(i);
        proof {
            assert(s@.subrange(0, i + 1).drop_last() =~= s@.subrange(0, i as int));
            assert(s@.subrange(0, i + 1).last() == s@[i as int]);
        }
        st = v6_step_exec(st, c);
        i += 1;
    }
    proof {
        assert(s@.subrange(0, len as int) =~= s@);
    }
    let accepted = if st.compressed {
        (matches!(st.last, V6Last::DoubleColon) && st.groups <= 7)
            || (matches!(st.last, V6Last::Digit) && st.groups <= 6)
    } else {
        matches!(st.last, V6Last::Digit) && st.groups == 7
    };
    !st.dead && accepted
}


/// A word the IPv4 scanner has not refused holds only digits and dots.
proof fn lemma_v4_alive_chars(s: Seq<char>, i: int)
    requires
        !v4_run(s).dead,
        0 <= i < s.len(),
    ensures
        is_dec_digit(s[i]) || s[i] == '.',
    decreases s.len(),
{
    if i < s.len() - 1 {
        lemma_v4_alive_chars(s.drop_last(), i);
    }
}

/// A dot was consumed wherever the IPv4 scanner counts one.
proof fn lemma_v4_dots_present(s: Seq<char>)
    requires
        v4_run(s).dots > 0,
    ensures
        exists|i: int| 0 <= i < s.len() && s[i] == '.',
    decreases s.len(),
{
    if s.len() > 0 {
        if s.last() == '.' && !v4_run(s.drop_last()).dead {
            assert(s[s.len() - 1] == '.');
        } else {
            lemma_v4_dots_present(s.drop_last());
            let j = choose|j: int| 0 <= j < s.drop_last().len() && s.drop_last()[j] == '.';
            assert(s[j] == '.');
        }
    }
}

/// A word the IPv6 scanner has not refused holds only hexadecimal digits and
/// separators.
proof fn lemma_v6_alive_chars(s: Seq<char>, i: int)
    requires
        !v6_run(s).dead,
        0 <= i < s.len(),
    ensures
        is_hex_digit(s[i]) || s[i] == ':',
    decreases s.len(),
{
    if i < s.len() - 1 {
        lemma_v6_alive_chars(s.drop_last(), i);
    }
}

/// No address belongs to both families: an IPv4 address carries a dot, which
/// no IPv6 word may hold.
pub proof fn lemma_families_disjoint(s: Seq<char>)
    ensures
        !(is_ipv4_chars(s) && is_ipv6_chars(s)),
{
    if is_ipv4_chars(s) && is_ipv6_chars(s) {
        lemma_v4_dots_present(s);
        let i = choose|i: int| 0 <= i < s.len() && s[i] == '.';
        lemma_v6_alive_chars(s, i);
    }
}

} // verus!
