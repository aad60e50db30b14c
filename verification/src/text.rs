//! Reading text by its characters.

use vstd::prelude::*;
use vstd::string::*;

verus! {

/// The first place at or after `from` where `s` holds `c`; the length of `s`
/// where it holds none there.
pub open spec fn position(s: Seq<char>, c: char, from: int) -> int
    decreases s.len() - from,
{
    if 0 <= from < s.len() {
        if s[from] == c {
            from
        } else {
            position(s, c, from + 1)
        }
    } else {
        s.len() as int
    }
}

/// The place just behind the last `c` in `s`; 0 where `s` holds none.
pub open spec fn after_last(s: Seq<char>, c: char) -> int
    decreases s.len(),
{
    if s.len() == 0 {
        0
    } else if s.last() == c {
        s.len() as int
    } else {
        after_last(s.drop_last(), c)
    }
}

/// What follows the last `c` in `s`; all of `s` where it holds none.
pub open spec fn last_piece(s: Seq<char>, c: char) -> Seq<char> {
    s.skip(after_last(s, c))
}

/// [`position`] is the first occurrence: it lies between `from` and the end,
/// nothing before it is `c`, and unless it is the end it holds `c`.
pub proof fn position_is_first(s: Seq<char>, c: char, from: int)
    requires
        0 <= from <= s.len(),
    ensures
        from <= position(s, c, from) <= s.len(),
        forall|i: int| from <= i < position(s, c, from) ==> s[i] != c,
        position(s, c, from) < s.len() ==> s[position(s, c, from)] == c,
    decreases s.len() - from,
{
    if from < s.len() && s[from] != c {
        position_is_first(s, c, from + 1);
    }
}

/// [`last_piece`] holds no `c`, and `c` stands right before it unless it is
/// all of `s`.
pub proof fn last_piece_is_last(s: Seq<char>, c: char)
    ensures
        0 <= after_last(s, c) <= s.len(),
        forall|i: int| 0 <= i < last_piece(s, c).len() ==> last_piece(s, c)[i] != c,
        after_last(s, c) > 0 ==> s[after_last(s, c) - 1] == c,
    decreases s.len(),
{
    if s.len() > 0 && s.last() != c {
        let t = s.drop_last();
        last_piece_is_last(t, c);
        assert forall|i: int| 0 <= i < last_piece(s, c).len() implies last_piece(s, c)[i] != c by {
            if i < last_piece(t, c).len() {
                assert(last_piece(s, c)[i] == last_piece(t, c)[i]);
            }
        }
    }
}

/// The place behind the last `c` is behind `at`, where `at` holds `c` and
/// nothing behind it does.
pub proof fn after_last_finds(s: Seq<char>, c: char, at: int)
    requires
        0 <= at < s.len(),
        s[at] == c,
        forall|i: int| at < i < s.len() ==> s[i] != c,
    ensures
        after_last(s, c) == at + 1,
    decreases s.len(),
{
    if s.last() != c {
        after_last_finds(s.drop_last(), c, at);
    }
}

/// Where `s` ends in `c`, or is empty, nothing follows its last `c`; and only
/// there.
pub proof fn last_piece_is_empty(s: Seq<char>, c: char)
    ensures
        last_piece(s, c).len() == 0 <==> s.len() == 0 || s.last() == c,
    decreases s.len(),
{
    if s.len() > 0 && s.last() != c {
        last_piece_is_last(s.drop_last(), c);
    }
}

/// The characters of `s`, one by one.
pub fn chars_of(s: &str) -> (v: Vec<char>)
    ensures
        v@ == s@,
{
    let mut v: Vec<char> = Vec::new();
    for c in it: s.chars()
        invariant
            it.seq() == s@,
            v@.len() == it.index(),
            forall|j: int| 0 <= j < v@.len() ==> v@[j] == it.seq()[j],
    {
        v.push(c);
    }
    assert(v@ =~= s@);
    v
}

/// Finds the first `c` in `s` at or after `from`.
pub fn find(s: &Vec<char>, c: char, from: usize) -> (r: usize)
    requires
        from <= s@.len(),
    ensures
        r == position(s@, c, from as int),
{
    let mut i: usize = from;
    while i < s.len() && s[i] != c
        invariant
            from <= i <= s@.len(),
            position(s@, c, from as int) == position(s@, c, i as int),
        decreases s@.len() - i,
    {
        i += 1;
    }
    i
}

/// Finds the place just behind the last `c` in what `s` holds from `from`
/// on; `from` itself where there is none.
pub fn find_after_last(s: &Vec<char>, c: char, from: usize) -> (r: usize)
    requires
        from <= s@.len(),
    ensures
        from <= r <= s@.len(),
        r - from == after_last(s@.skip(from as int), c),
{
    let ghost rest = s@.skip(from as int);
    let mut i: usize = s.len();
    assert(rest.take(rest.len() as int) =~= rest);
    while i > from && s[i - 1] != c
        invariant
            from <= i <= s@.len(),
            rest == s@.skip(from as int),
            after_last(rest, c) == after_last(rest.take(i - from), c),
        decreases i,
    {
        assert(rest.take(i - from).drop_last() =~= rest.take(i - 1 - from));
        i -= 1;
    }
    i
}

/// Whether `s` begins with `prefix`.
pub fn begins_with(s: &Vec<char>, prefix: &Vec<char>) -> (r: bool)
    ensures
        r == prefix@.is_prefix_of(s@),
{
    if prefix.len() > s.len() {
        return false;
    }
    let mut i: usize = 0;
    while i < prefix.len()
        invariant
            i <= prefix@.len() <= s@.len(),
            forall|j: int| 0 <= j < i ==> s@[j] == prefix@[j],
        decreases prefix@.len() - i,
    {
        if s[i] != prefix[i] {
            assert(s@.subrange(0, prefix@.len() as int)[i as int] != prefix@[i as int]);
            return false;
        }
        i += 1;
    }
    assert(prefix@ =~= s@.subrange(0, prefix@.len() as int));
    true
}

/// The characters of `s` from `from` up to `to`, as text of their own.
pub fn slice(s: &str, from: usize, to: usize) -> (r: String)
    requires
        from <= to <= s@.len(),
    ensures
        r@ == s@.subrange(from as int, to as int),
{
    String::from_str(s.substring_char(from, to))
}

/// The character of a decimal digit.
pub open spec fn digit(d: nat) -> char {
    if d == 0 {
        '0'
    } else if d == 1 {
        '1'
    } else if d == 2 {
        '2'
    } else if d == 3 {
        '3'
    } else if d == 4 {
        '4'
    } else if d == 5 {
        '5'
    } else if d == 6 {
        '6'
    } else if d == 7 {
        '7'
    } else if d == 8 {
        '8'
    } else {
        '9'
    }
}

/// A number in decimal digits, without leading zeros.
pub open spec fn decimal(n: nat) -> Seq<char>
    decreases n,
{
    if n < 10 {
        seq![digit(n)]
    } else {
        decimal(n / 10).push(digit(n % 10))
    }
}

/// The text of one decimal digit.
fn digit_text(d: u16) -> (r: &'static str)
    requires
        d < 10,
    ensures
        r@ == seq![digit(d as nat)],
{
    proof {
        reveal_strlit("0");
        reveal_strlit("1");
        reveal_strlit("2");
        reveal_strlit("3");
        reveal_strlit("4");
        reveal_strlit("5");
        reveal_strlit("6");
        reveal_strlit("7");
        reveal_strlit("8");
        reveal_strlit("9");
    }
    let r = if d == 0 {
        "0"
    } else if d == 1 {
        "1"
    } else if d == 2 {
        "2"
    } else if d == 3 {
        "3"
    } else if d == 4 {
        "4"
    } else if d == 5 {
        "5"
    } else if d == 6 {
        "6"
    } else if d == 7 {
        "7"
    } else if d == 8 {
        "8"
    } else {
        "9"
    };
    assert(r@ =~= seq![digit(d as nat)]);
    r
}

/// Writes a number in decimal digits.
pub fn decimal_text(n: u16) -> (r: String)
    ensures
        r@ == decimal(n as nat),
    decreases n,
{
    if n < 10 {
        String::from_str(digit_text(n))
    } else {
        let r = decimal_text(n / 10).concat(digit_text(n % 10));
        assert(r@ =~= decimal(n as nat));
        r
    }
}

} // verus!
