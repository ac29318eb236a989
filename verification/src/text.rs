//! Small verified text utilities shared by the bridge: whitespace trimming,
//! prefix tests and decimal rendering of integers.

use vstd::prelude::*;

verus! {

/// The white-space characters recognised when trimming text.
pub open spec fn spec_is_white(c: char) -> bool {
    ||| c == ' '
    ||| c == '\t'
    ||| c == '\n'
    ||| c == '\r'
    ||| (c as u32) == 0x0B
    ||| (c as u32) == 0x0C
    ||| (c as u32) == 0x85
    ||| (c as u32) == 0xA0
    ||| (c as u32) == 0x1680
    ||| (0x2000 <= (c as u32) && (c as u32) <= 0x200A)
    ||| (c as u32) == 0x2028
    ||| (c as u32) == 0x2029
    ||| (c as u32) == 0x202F
    ||| (c as u32) == 0x205F
    ||| (c as u32) == 0x3000
}

/// Decides `spec_is_white`.
pub fn is_white(c: char) -> (r: bool)
    ensures
        r == spec_is_white(c),
{
    let u = c as u32;
    u == 0x20 || u == 0x09 || u == 0x0A || u == 0x0D || u == 0x0B || u == 0x0C || u == 0x85
        || u == 0xA0 || u == 0x1680 || (0x2000 <= u && u <= 0x200A) || u == 0x2028 || u == 0x2029
        || u == 0x202F || u == 0x205F || u == 0x3000
}

/// The text with its white-space prefix removed.
pub open spec fn spec_trim_start(s: Seq<char>) -> Seq<char>
    decreases s.len(),
{
    if s.len() > 0 && spec_is_white(s[0]) {
        spec_trim_start(s.drop_first())
    } else {
        s
    }
}

/// The text with its white-space suffix removed.
pub open spec fn spec_trim_end(s: Seq<char>) -> Seq<char>
    decreases s.len(),
{
    if s.len() > 0 && spec_is_white(s.last()) {
        spec_trim_end(s.drop_last())
    } else {
        s
    }
}

/// The text with white space removed from both ends.
pub open spec fn spec_trim(s: Seq<char>) -> Seq<char> {
    spec_trim_end(spec_trim_start(s))
}

proof fn lemma_trim_start_step(s: Seq<char>, i: int)
    requires
        0 <= i < s.len(),
        spec_is_white(s[i]),
        spec_trim_start(s) == spec_trim_start(s.subrange(i, s.len() as int)),
    ensures
        spec_trim_start(s) == spec_trim_start(s.subrange(i + 1, s.len() as int)),
{
    let t = s.subrange(i, s.len() as int);
    assert(t.len() > 0 && spec_is_white(t[0]));
    assert(t.drop_first() =~= s.subrange(i + 1, s.len() as int));
}

proof fn lemma_trim_end_step(s: Seq<char>, j: int)
    requires
        0 < j <= s.len(),
        spec_is_white(s[j - 1]),
        spec_trim_end(s) == spec_trim_end(s.subrange(0, j)),
    ensures
        spec_trim_end(s) == spec_trim_end(s.subrange(0, j - 1)),
{
    let t = s.subrange(0, j);
    assert(t.len() > 0 && spec_is_white(t.last()));
    assert(t.drop_last() =~= s.subrange(0, j - 1));
}

/// Removes white space from both ends of the text, as the trimming used for
/// the bridge's final-text policy.
pub fn trim_text(s: &str) -> (r: String)
    ensures
        r@ == spec_trim(s@),
{
    let len = s.unicode_len();
    proof {
        assert(s@.subrange(0, len as int) =~= s@);
    }
    let mut i: usize = 0;
    while i < len && is_white(s.get_char(i))
        invariant
            0 <= i <= len,
            len == s@.len(),
            spec_trim_start(s@) == spec_trim_start(s@.subrange(i as int, len as int)),
        decreases len - i,
    {
        proof {
            lemma_trim_start_step(s@, i as int);
        }
        i = i + 1;
    }
    proof {
        let rest = s@.subrange(i as int, len as int);
        assert(rest.len() == 0 || !spec_is_white(rest[0]));
        assert(spec_trim_start(rest) == rest);
    }
    let mut j: usize = len;
    while j > i && is_white(s.get_char(j - 1))
        invariant
            i <= j <= len,
            len == s@.len(),
            spec_trim_start(s@) == s@.subrange(i as int, len as int),
            spec_trim_end(s@.subrange(i as int, len as int)) == spec_trim_end(
                s@.subrange(i as int, j as int),
            ),
        decreases j - i,
    {
        proof {
            let t = s@.subrange(i as int, len as int);
            assert(t.subrange(0, (j - i) as int) =~= s@.subrange(i as int, j as int));
            assert(t[(j - i - 1) as int] == s@[j - 1]);
            lemma_trim_end_step(t, (j - i) as int);
            assert(t.subrange(0, (j - i - 1) as int) =~= s@.subrange(i as int, j as int - 1));
        }
        j = j - 1;
    }
    proof {
        let kept = s@.subrange(i as int, j as int);
        assert(kept.len() == 0 || !spec_is_white(kept.last()));
        assert(spec_trim_end(kept) == kept);
        let t = s@.subrange(i as int, len as int);
        if j == i {
            assert(t.subrange(0, 0) =~= s@.subrange(i as int, i as int));
        }
    }
    let piece = s.substring_char(i, j);
    String::from_str(piece)
}

/// Whether the text is empty once trimmed, without building the trimmed copy.
pub fn is_blank(s: &str) -> (r: bool)
    ensures
        r == (spec_trim(s@).len() == 0),
{
    let t = trim_text(s);
    t.as_str().unicode_len() == 0
}

/// Whether `s` begins with `prefix`.
pub open spec fn spec_starts_with(s: Seq<char>, prefix: Seq<char>) -> bool {
    prefix.len() <= s.len() && s.subrange(0, prefix.len() as int) == prefix
}

/// Decides `spec_starts_with`.
pub fn starts_with(s: &str, prefix: &str) -> (r: bool)
    ensures
        r == spec_starts_with(s@, prefix@),
{
    let n = s.unicode_len();
    let p = prefix.unicode_len();
    if p > n {
        proof {
            assert(!spec_starts_with(s@, prefix@));
        }
        return false;
    }
    let mut i: usize = 0;
    while i < p
        invariant
            0 <= i <= p <= n,
            n == s@.len(),
            p == prefix@.len(),
            forall|k: int| 0 <= k < i ==> s@[k] == prefix@[k],
        decreases p - i,
    {
        if s.get_char(i) != prefix.get_char(i) {
            proof {
                assert(s@.subrange(0, p as int)[i as int] != prefix@[i as int]);
            }
            return false;
        }
        i = i + 1;
    }
    proof {
        assert(s@.subrange(0, p as int) =~= prefix@);
    }
    true
}

/// The value under the first pair whose key matches, in an association
/// list.
pub open spec fn spec_assoc_lookup(pairs: Seq<(Seq<char>, Seq<char>)>, key: Seq<char>) -> Option<
    Seq<char>,
>
    decreases pairs.len(),
{
    if pairs.len() == 0 {
        None
    } else if pairs[0].0 == key {
        Some(pairs[0].1)
    } else {
        spec_assoc_lookup(pairs.drop_first(), key)
    }
}

/// Looks a key up in an association list; the first matching pair wins.
pub fn assoc_lookup(pairs: &Vec<(String, String)>, key: &String) -> (r: Option<String>)
    ensures
        r.deep_view() == spec_assoc_lookup(pairs.deep_view(), key@),
{
    let ghost pv = pairs.deep_view();
    proof {
        assert(pv.subrange(0, pv.len() as int) =~= pv);
    }
    let mut i: usize = 0;
    while i < pairs.len()
        invariant
            0 <= i <= pairs@.len(),
            pv == pairs.deep_view(),
            spec_assoc_lookup(pv, key@) == spec_assoc_lookup(
                pv.subrange(i as int, pv.len() as int),
                key@,
            ),
        decreases pairs@.len() - i,
    {
        proof {
            assert(pv.subrange(i as int, pv.len() as int).drop_first() =~= pv.subrange(
                i + 1,
                pv.len() as int,
            ));
            assert(pv[i as int] == (pairs@[i as int].0@, pairs@[i as int].1@));
        }
        if pairs[i].0.eq(key) {
            return Some(pairs[i].1.clone());
        }
        i = i + 1;
    }
    proof {
        assert(pv.subrange(pv.len() as int, pv.len() as int) =~= Seq::<(Seq<char>, Seq<
            char,
        >)>::empty());
    }
    None
}

/// The decimal digit characters of a natural number, most significant first.
pub open spec fn spec_digits(n: nat) -> Seq<char>
    decreases n,
{
    if n < 10 {
        seq![spec_digit_char(n)]
    } else {
        spec_digits(n / 10).push(spec_digit_char(n % 10))
    }
}

/// The character for one decimal digit.
pub open spec fn spec_digit_char(d: nat) -> char {
    if d == 0 {
        '0'
    } else if d == 1 {
        '1'
    } else if d == 2 {
        '2'
    } else if d == 3 {
        '3'
    } else if d == 4 {
        '4'
    } else if d == 5 {
        '5'
    } else if d == 6 {
        '6'
    } else if d == 7 {
        '7'
    } else if d == 8 {
        '8'
    } else {
        '9'
    }
}

fn digit_str(d: u64) -> (r: &'static str)
    requires
        d < 10,
    ensures
        r@ =~= seq![spec_digit_char(d as nat)],
{
    proof {
        reveal_strlit("0");
        reveal_strlit("1");
        reveal_strlit("2");
        reveal_strlit("3");
        reveal_strlit("4");
        reveal_strlit("5");
        reveal_strlit("6");
        reveal_strlit("7");
        reveal_strlit("8");
        reveal_strlit("9");
    }
    if d == 0 {
        "0"
    } else if d == 1 {
        "1"
    } else if d == 2 {
        "2"
    } else if d == 3 {
        "3"
    } else if d == 4 {
        "4"
    } else if d == 5 {
        "5"
    } else if d == 6 {
        "6"
    } else if d == 7 {
        "7"
    } else if d == 8 {
        "8"
    } else {
        "9"
    }
}

/// Renders a natural number in decimal.
pub fn u64_to_string(n: u64) -> (r: String)
    ensures
        r@ == spec_digits(n as nat),
    decreases n,
{
    if n < 10 {
        String::from_str(digit_str(n))
    } else {
        let mut r = u64_to_string(n / 10);
        r.append(digit_str(n % 10));
        proof {
            assert(spec_digits((n / 10) as nat).push(spec_digit_char((n % 10) as nat)) =~= r@);
        }
        r
    }
}

/// The decimal rendering of a signed number: a minus sign and the digits of
/// its magnitude, or just the digits when it is not negative.
pub open spec fn spec_i64_digits(n: int) -> Seq<char> {
    if n >= 0 {
        spec_digits(n as nat)
    } else {
        seq!['-'] + spec_digits((-n) as nat)
    }
}

/// Renders a signed number in decimal.
pub fn i64_to_string(n: i64) -> (r: String)
    ensures
        r@ == spec_i64_digits(n as int),
{
    if n >= 0 {
        u64_to_string(n as u64)
    } else {
        let mag: u64 = if n == i64::MIN {
            9223372036854775808u64
        } else {
            (-n) as u64
        };
        proof {
            reveal_strlit("-");
        }
        let mut r = String::from_str("-");
        let digits = u64_to_string(mag);
        r.append(digits.as_str());
        proof {
            assert(seq!['-'] + spec_digits(mag as nat) =~= r@);
        }
        r
    }
}

} // verus!
