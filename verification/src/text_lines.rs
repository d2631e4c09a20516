//! Splitting text into lines.
//!
//! The streaming editor works on whole lines. A line ends at a `'\n'`; a
//! carriage return immediately before the `'\n'` belongs to the terminator
//! and is not part of the line. The final line of a text needs no
//! terminator, and a text that ends with a terminator has no empty final
//! line. `lines_of` states these rules over a sequence of characters and is
//! the specification that every exec function here is proved against.

use vstd::prelude::*;
use vstd::string::StrSliceExecFns;

verus! {

/// Relies on `String::push`: appends the given character to the end of the
/// string.
pub assume_specification[ String::push ](s: &mut String, c: char)
    ensures
        final(s)@ == old(s)@.push(c),
;

/// A line with the carriage return of a `"\r\n"` terminator removed.
pub open spec fn strip_cr(line: Seq<char>) -> Seq<char> {
    if line.len() > 0 && line.last() == '\r' {
        line.drop_last()
    } else {
        line
    }
}

/// The lines of `s` after `cur` has already been read from an unterminated
/// line in front of it.
pub open spec fn split_rest(s: Seq<char>, cur: Seq<char>) -> Seq<Seq<char>>
    decreases s.len(),
{
    if s.len() == 0 {
        if cur.len() == 0 {
            Seq::empty()
        } else {
            seq![cur]
        }
    } else if s[0] == '\n' {
        seq![strip_cr(cur)] + split_rest(s.drop_first(), Seq::empty())
    } else {
        split_rest(s.drop_first(), cur.push(s[0]))
    }
}

/// The lines of a text, as `str::lines` yields them.
pub open spec fn lines_of(s: Seq<char>) -> Seq<Seq<char>> {
    split_rest(s, Seq::empty())
}

/// The number of times `c` occurs in `s`.
pub open spec fn count_char(s: Seq<char>, c: char) -> nat
    decreases s.len(),
{
    if s.len() == 0 {
        0
    } else {
        count_char(s.drop_first(), c) + if s[0] == c {
            1nat
        } else {
            0nat
        }
    }
}

/// Builds a `String` holding exactly the characters of `v`.
pub fn char_vec_to_string(v: &Vec<char>) -> (r: String)
    ensures
        r@ == v@,
{
    let mut r = String::new();
    let n = v.len();
    for i in 0..n
        invariant
            n == v@.len(),
            r@ == v@.take(i as int),
    {
        r.push(v[i]);
        assert(v@.take(i + 1) == v@.take(i as int).push(v@[i as int]));
    }
    assert(v@.take(n as int) == v@);
    r
}

/// Collects the characters of `s` into a vector.
pub fn str_to_char_vec(s: &str) -> (r: Vec<char>)
    ensures
        r@ == s@,
{
    let mut r: Vec<char> = Vec::new();
    let n = s.unicode_len();
    for i in 0..n
        invariant
            n == s@.len(),
            r@ == s@.take(i as int),
    {
        r.push(s.get_char(i));
        assert(s@.take(i + 1) == s@.take(i as int).push(s@[i as int]));
    }
    assert(s@.take(n as int) == s@);
    r
}

/// Compares two string slices character by character.
pub fn str_eq(a: &str, b: &str) -> (r: bool)
    ensures
        r == (a@ == b@),
{
    let n = a.unicode_len();
    let m = b.unicode_len();
    if n != m {
        return false;
    }
    for i in 0..n
        invariant
            n == a@.len(),
            n == b@.len(),
            forall|t: int| 0 <= t < i ==> a@[t] == b@[t],
    {
        if a.get_char(i) != b.get_char(i) {
            return false;
        }
    }
    proof {
        assert(a@ =~= b@);
    }
    true
}

/// The character for one decimal digit.
pub open spec fn dec_digit(d: nat) -> char {
    if d == 0 {
        '0'
    } else if d == 1 {
        '1'
    } else if d == 2 {
        '2'
    } else if d == 3 {
        '3'
    } else if d == 4 {
        '4'
    } else if d == 5 {
        '5'
    } else if d == 6 {
        '6'
    } else if d == 7 {
        '7'
    } else if d == 8 {
        '8'
    } else {
        '9'
    }
}

/// The usual decimal rendering of a number, most significant digit first,
/// without leading zeroes (except for the number zero itself).
pub open spec fn dec_rep(n: nat) -> Seq<char>
    decreases n,
{
    if n < 10 {
        seq![dec_digit(n)]
    } else {
        dec_rep(n / 10).push(dec_digit(n % 10))
    }
}

/// The character for one decimal digit.
fn dec_digit_char(d: usize) -> (c: char)
    requires
        d < 10,
    ensures
        c == dec_digit(d as nat),
{
    if d == 0 {
        '0'
    } else if d == 1 {
        '1'
    } else if d == 2 {
        '2'
    } else if d == 3 {
        '3'
    } else if d == 4 {
        '4'
    } else if d == 5 {
        '5'
    } else if d == 6 {
        '6'
    } else if d == 7 {
        '7'
    } else if d == 8 {
        '8'
    } else {
        '9'
    }
}

/// Renders a number in decimal.
pub fn usize_to_string(n: usize) -> (r: String)
    ensures
        r@ == dec_rep(n as nat),
{
    let mut digits: Vec<char> = Vec::new();
    let mut x = n;
    while x > 0
        invariant
            x <= n,
            x > 0 ==> dec_rep(n as nat) == dec_rep(x as nat) + digits@.reverse(),
            x == 0 && digits@.len() > 0 ==> dec_rep(n as nat) == digits@.reverse(),
            x == 0 && digits@.len() == 0 ==> n == 0,
        decreases x,
    {
        let d = x % 10;
        let ghost old_digits = digits@;
        let ghost old_x = x;
        digits.push(dec_digit_char(d));
        x = x / 10;
        proof {
            assert(digits@ == old_digits.push(dec_digit(d as nat)));
            assert(digits@.reverse() =~= seq![dec_digit(d as nat)] + old_digits.reverse());
            if x > 0 {
                assert(dec_rep(old_x as nat) == dec_rep((old_x / 10) as nat).push(
                    dec_digit((old_x % 10) as nat),
                ));
                assert(dec_rep(x as nat).push(dec_digit(d as nat)) + old_digits.reverse()
                    =~= dec_rep(x as nat) + digits@.reverse());
            } else {
                assert(old_x < 10);
                assert(dec_rep(old_x as nat) == seq![dec_digit(old_x as nat)]);
                assert(old_x % 10 == old_x);
                assert(dec_rep(n as nat) =~= digits@.reverse());
            }
        }
    }
    if digits.len() == 0 {
        proof {
            reveal_strlit("0");
        }
        let z = "0".to_owned();
        proof {
            assert(z@ =~= dec_rep(0));
        }
        return z;
    }
    let mut rev: Vec<char> = Vec::new();
    let k = digits.len();
    for i in 0..k
        invariant
            k == digits@.len(),
            rev@.len() == i,
            forall|t: int| 0 <= t < i ==> rev@[t] == digits@[k - 1 - t],
    {
        rev.push(digits[k - 1 - i]);
    }
    proof {
        assert(rev@ =~= digits@.reverse());
    }
    char_vec_to_string(&rev)
}

/// Splits a text into its lines, as `lines_of` describes.
pub fn split_into_lines(s: &str) -> (r: Vec<String>)
    ensures
        r.deep_view() == lines_of(s@),
{
    let mut out: Vec<String> = Vec::new();
    let mut cur: Vec<char> = Vec::new();
    let n = s.unicode_len();
    proof {
        assert(s@.skip(0) =~= s@);
        assert(out.deep_view() =~= Seq::<Seq<char>>::empty());
        assert(Seq::<Seq<char>>::empty() + split_rest(s@, Seq::empty()) =~= lines_of(s@));
    }
    for i in 0..n
        invariant
            n == s@.len(),
            lines_of(s@) == out.deep_view() + split_rest(s@.skip(i as int), cur@),
    {
        let ghost prev_rest = s@.skip(i as int);
        let ghost prev_cur = cur@;
        assert(prev_rest.len() > 0 && prev_rest[0] == s@[i as int]);
        assert(prev_rest.drop_first() == s@.skip(i + 1));
        let c = s.get_char(i);
        if c == '\n' {
            if cur.len() > 0 && cur[cur.len() - 1] == '\r' {
                cur.pop();
            }
            assert(cur@ == strip_cr(prev_cur));
            let line = char_vec_to_string(&cur);
            out.push(line);
            cur = Vec::new();
            proof {
                assert(split_rest(prev_rest, prev_cur) == seq![strip_cr(prev_cur)] + split_rest(
                    s@.skip(i + 1),
                    Seq::empty(),
                ));
                assert(out.deep_view() + split_rest(s@.skip(i + 1), cur@) == lines_of(s@));
            }
        } else {
            cur.push(c);
            proof {
                assert(cur@ == prev_cur.push(s@[i as int]));
                assert(split_rest(prev_rest, prev_cur) == split_rest(s@.skip(i + 1), cur@));
            }
        }
    }
    assert(s@.skip(n as int) =~= Seq::<char>::empty());
    if cur.len() > 0 {
        let line = char_vec_to_string(&cur);
        out.push(line);
    }
    assert(out.deep_view() =~= lines_of(s@));
    out
}

} // verus!
