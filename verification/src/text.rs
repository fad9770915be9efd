//! Text building blocks: decimal numerals and character substitution.

use vstd::prelude::*;
use vstd::std_specs::iter::IteratorSpec;
use vstd::string::*;

verus! {

/// `String::push` appends one character to the text.
pub assume_specification[ String::push ](s: &mut String, c: char)
    ensures
        final(s)@ == old(s)@.push(c),
;

/// The decimal digit for a value below ten.
pub open spec fn digit_char(d: nat) -> char {
    if d == 0 {
        '0'
    } else if d == 1 {
        '1'
    } else if d == 2 {
        '2'
    } else if d == 3 {
        '3'
    } else if d == 4 {
        '4'
    } else if d == 5 {
        '5'
    } else if d == 6 {
        '6'
    } else if d == 7 {
        '7'
    } else if d == 8 {
        '8'
    } else {
        '9'
    }
}

/// Whether `c` is one of the ten decimal digits.
pub open spec fn is_digit(c: char) -> bool {
    '0' <= c && c <= '9'
}

/// The value of a decimal digit.
pub open spec fn digit_value(c: char) -> nat {
    (c as nat - '0' as nat) as nat
}

/// The decimal numeral of `n`, without sign or leading zeros.
pub open spec fn spec_decimal(n: nat) -> Seq<char>
    decreases n,
{
    if n < 10 {
        seq![digit_char(n)]
    } else {
        spec_decimal(n / 10).push(digit_char(n % 10))
    }
}

/// The number that a run of decimal digits denotes.
pub open spec fn numeral_value(s: Seq<char>) -> nat
    decreases s.len(),
{
    if s.len() == 0 {
        0
    } else {
        numeral_value(s.drop_last()) * 10 + digit_value(s.last())
    }
}

/// Replaces each character for which `bad` holds by an underscore.
pub open spec fn spec_replace(s: Seq<char>, bad: spec_fn(char) -> bool) -> Seq<char> {
    Seq::new(
        s.len(),
        |i: int|
            if bad(s[i]) {
                '_'
            } else {
                s[i]
            },
    )
}

/// Spaces become underscores.
pub open spec fn underscored(s: Seq<char>) -> Seq<char> {
    spec_replace(s, |c: char| c == ' ')
}

/// Spaces, path separators and NUL become underscores.
pub open spec fn path_safe(s: Seq<char>) -> Seq<char> {
    spec_replace(s, |c: char| c == ' ' || c == '/' || c == '\0')
}

/// A numeral is made of digits only and is never empty.
pub proof fn lemma_decimal_digits(n: nat)
    ensures
        spec_decimal(n).len() >= 1,
        forall|i: int| 0 <= i < spec_decimal(n).len() ==> is_digit(#[trigger] spec_decimal(n)[i]),
    decreases n,
{
    if n >= 10 {
        lemma_decimal_digits(n / 10);
    }
}

/// Reading a numeral back gives the number it was written from.
pub proof fn lemma_decimal_value(n: nat)
    ensures
        numeral_value(spec_decimal(n)) == n,
    decreases n,
{
    if n < 10 {
        let s = spec_decimal(n);
        assert(s.drop_last() =~= Seq::<char>::empty());
        assert(numeral_value(s.drop_last()) == 0);
        assert(s.last() == digit_char(n));
    } else {
        lemma_decimal_value(n / 10);
        let s = spec_decimal(n);
        assert(s.drop_last() =~= spec_decimal(n / 10));
        assert(s.last() == digit_char(n % 10));
    }
}

/// Different numbers have different numerals.
pub proof fn lemma_decimal_injective(a: nat, b: nat)
    requires
        spec_decimal(a) == spec_decimal(b),
    ensures
        a == b,
{
    lemma_decimal_value(a);
    lemma_decimal_value(b);
}

/// A numeral followed by a character that is no digit determines the number:
/// two texts that start this way and are equal start with the same number.
pub proof fn lemma_numeral_prefix_unique(a: nat, b: nat, rest_a: Seq<char>, rest_b: Seq<char>)
    requires
        rest_a.len() > 0,
        rest_b.len() > 0,
        !is_digit(rest_a[0]),
        !is_digit(rest_b[0]),
        spec_decimal(a) + rest_a == spec_decimal(b) + rest_b,
    ensures
        a == b,
{
    let da = spec_decimal(a);
    let db = spec_decimal(b);
    let ta = da + rest_a;
    let tb = db + rest_b;
    lemma_decimal_digits(a);
    lemma_decimal_digits(b);
    if da.len() < db.len() {
        assert(ta[da.len() as int] == rest_a[0]);
        assert(tb[da.len() as int] == db[da.len() as int]);
        assert(false);
    }
    if db.len() < da.len() {
        assert(tb[db.len() as int] == rest_b[0]);
        assert(ta[db.len() as int] == da[db.len() as int]);
        assert(false);
    }
    assert(da =~= db) by {
        assert forall|i: int| 0 <= i < da.len() implies da[i] == db[i] by {
            assert(ta[i] == da[i]);
            assert(tb[i] == db[i]);
        }
    }
    lemma_decimal_injective(a, b);
}

/// Replacing characters in a text made of two parts replaces them in each part.
pub proof fn lemma_replace_concat(a: Seq<char>, b: Seq<char>, bad: spec_fn(char) -> bool)
    ensures
        spec_replace(a + b, bad) == spec_replace(a, bad) + spec_replace(b, bad),
{
    assert(spec_replace(a + b, bad) =~= spec_replace(a, bad) + spec_replace(b, bad));
}

/// Replacing characters of which none is a digit leaves a numeral as it is.
pub proof fn lemma_replace_keeps_numeral(n: nat, bad: spec_fn(char) -> bool)
    requires
        forall|c: char| is_digit(c) ==> !#[trigger] bad(c),
    ensures
        spec_replace(spec_decimal(n), bad) == spec_decimal(n),
{
    lemma_decimal_digits(n);
    assert(spec_replace(spec_decimal(n), bad) =~= spec_decimal(n));
}

/// Whether two texts hold the same characters.
pub fn str_equal(a: &str, b: &str) -> (same: bool)
    ensures
        same == (a@ == b@),
{
    let left: String = a.to_owned();
    let right: String = b.to_owned();
    left == right
}

/// The digit for a value below ten.
fn digit(d: u64) -> (c: char)
    requires
        d < 10,
    ensures
        c == digit_char(d as nat),
{
    if d == 0 {
        '0'
    } else if d == 1 {
        '1'
    } else if d == 2 {
        '2'
    } else if d == 3 {
        '3'
    } else if d == 4 {
        '4'
    } else if d == 5 {
        '5'
    } else if d == 6 {
        '6'
    } else if d == 7 {
        '7'
    } else if d == 8 {
        '8'
    } else {
        '9'
    }
}

/// Appends the decimal numeral of `n` to `out`.
pub fn push_decimal(out: &mut String, n: u64)
    ensures
        final(out)@ == old(out)@ + spec_decimal(n as nat),
    decreases n,
{
    if n < 10 {
        out.push(digit(n));
        assert(old(out)@.push(digit_char(n as nat)) =~= old(out)@ + spec_decimal(n as nat));
    } else {
        push_decimal(out, n / 10);
        out.push(digit(n % 10));
        assert((old(out)@ + spec_decimal((n / 10) as nat)).push(digit_char((n % 10) as nat))
            =~= old(out)@ + spec_decimal(n as nat));
    }
}

/// The decimal numeral of `n`.
pub fn decimal(n: u64) -> (text: String)
    ensures
        text@ == spec_decimal(n as nat),
{
    let mut text: String = String::new();
    push_decimal(&mut text, n);
    assert(Seq::<char>::empty() + spec_decimal(n as nat) =~= spec_decimal(n as nat));
    text
}

/// Appends `s` to `out` with every space replaced by an underscore.
pub fn push_underscored(out: &mut String, s: &str)
    ensures
        final(out)@ == old(out)@ + underscored(s@),
{
    let mut rest = s.chars();
    let ghost mut done: int = 0;
    assert(s@.skip(0) =~= s@);
    assert(underscored(s@).take(0) =~= Seq::<char>::empty());
    loop
        invariant
            0 <= done <= s@.len(),
            rest.remaining() == s@.skip(done),
            out@ == old(out)@ + underscored(s@).take(done),
        ensures
            out@ == old(out)@ + underscored(s@),
        decreases s@.len() - done,
    {
        match rest.next() {
            Some(c) => {
                let d: char = if c == ' ' {
                    '_'
                } else {
                    c
                };
                out.push(d);
                proof {
                    assert(c == s@[done]);
                    assert(s@.skip(done).drop_first() =~= s@.skip(done + 1));
                    assert(underscored(s@).take(done).push(d) =~= underscored(s@).take(done + 1));
                    done = done + 1;
                }
            },
            None => {
                assert(underscored(s@).take(done) =~= underscored(s@));
                break ;
            },
        }
    }
}

/// The first position at or after `from` at which `s` holds `c`, or the
/// length of `s` where there is none.
pub open spec fn position_from(s: Seq<char>, c: char, from: int) -> int
    decreases s.len() - from,
{
    if 0 <= from < s.len() && s[from] != c {
        position_from(s, c, from + 1)
    } else {
        from
    }
}

/// The first position at or after `from` at which `s` holds `c`, or the
/// number of characters of `s` where there is none.
pub fn find_from(s: &str, c: char, from: usize) -> (at: usize)
    requires
        from <= s@.len(),
    ensures
        at == position_from(s@, c, from as int),
        from <= at <= s@.len(),
{
    let n: usize = s.unicode_len();
    let mut rest = s.chars();
    let mut i: usize = 0;
    assert(s@.skip(0) =~= s@);
    loop
        invariant_except_break
            rest.remaining() == s@.skip(i as int),
        invariant
            i <= n == s@.len(),
            from <= n,
            i >= from ==> position_from(s@, c, i as int) == position_from(s@, c, from as int),
        ensures
            i == position_from(s@, c, from as int),
            from <= i <= n,
        decreases n - i,
    {
        match rest.next() {
            Some(d) => {
                proof {
                    assert(d == s@[i as int]);
                    assert(s@.skip(i as int).drop_first() =~= s@.skip(i as int + 1));
                }
                if i >= from && d == c {
                    break ;
                }
                i = i + 1;
            },
            None => {
                break ;
            },
        }
    }
    i
}

/// Appends the characters of `s` from position `from` up to `to` to `out`.
pub fn push_char_run(out: &mut String, s: &str, from: usize, to: usize)
    requires
        from <= to <= s@.len(),
    ensures
        final(out)@ == old(out)@ + s@.subrange(from as int, to as int),
{
    let mut rest = s.chars();
    let mut i: usize = 0;
    assert(s@.skip(0) =~= s@);
    assert(old(out)@ + s@.subrange(from as int, from as int) =~= old(out)@);
    loop
        invariant
            i <= to <= s@.len(),
            from <= to,
            rest.remaining() == s@.skip(i as int),
            out@ == old(out)@ + s@.subrange(
                from as int,
                if i < from {
                    from as int
                } else {
                    i as int
                },
            ),
        ensures
            out@ == old(out)@ + s@.subrange(from as int, to as int),
        decreases to - i,
    {
        if i >= to {
            break ;
        }
        match rest.next() {
            Some(c) => {
                proof {
                    assert(c == s@[i as int]);
                    assert(s@.skip(i as int).drop_first() =~= s@.skip(i as int + 1));
                }
                if i >= from {
                    out.push(c);
                    assert(s@.subrange(from as int, i as int).push(c) =~= s@.subrange(
                        from as int,
                        i as int + 1,
                    ));
                    assert((old(out)@ + s@.subrange(from as int, i as int)).push(c) =~= old(out)@
                        + s@.subrange(from as int, i as int + 1));
                }
                i = i + 1;
            },
            None => {
                break ;
            },
        }
    }
}

/// Appends `s` to `out` with every space, path separator and NUL replaced by
/// an underscore.
pub fn push_path_safe(out: &mut String, s: &str)
    ensures
        final(out)@ == old(out)@ + path_safe(s@),
{
    let mut rest = s.chars();
    let ghost mut done: int = 0;
    assert(s@.skip(0) =~= s@);
    assert(path_safe(s@).take(0) =~= Seq::<char>::empty());
    loop
        invariant
            0 <= done <= s@.len(),
            rest.remaining() == s@.skip(done),
            out@ == old(out)@ + path_safe(s@).take(done),
        ensures
            out@ == old(out)@ + path_safe(s@),
        decreases s@.len() - done,
    {
        match rest.next() {
            Some(c) => {
                let d: char = if c == ' ' || c == '/' || c == '\0' {
                    '_'
                } else {
                    c
                };
                out.push(d);
                proof {
                    assert(c == s@[done]);
                    assert(s@.skip(done).drop_first() =~= s@.skip(done + 1));
                    assert(path_safe(s@).take(done).push(d) =~= path_safe(s@).take(done + 1));
                    done = done + 1;
                }
            },
            None => {
                assert(path_safe(s@).take(done) =~= path_safe(s@));
                break ;
            },
        }
    }
}

} // verus!
