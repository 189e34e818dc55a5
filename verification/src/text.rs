//! Text pieces that go into a synthesized SQL statement: single-quote
//! escaping for embedded string literals, and decimal rendering of the
//! integer and boolean parameters.

use vstd::prelude::*;
use vstd::string::StrSliceExecFns;

verus! {

/// What one character of an embedded string literal becomes: a single quote
/// is doubled, every other character is kept as it is.
pub open spec fn spec_escape_char(c: char) -> Seq<char> {
    if c == '\'' {
        seq!['\'', '\'']
    } else {
        seq![c]
    }
}

/// The text of a string value as it is embedded inside a single-quoted SQL
/// literal: each single quote doubled, everything else unchanged.
pub open spec fn spec_escape(s: Seq<char>) -> Seq<char>
    decreases s.len(),
{
    if s.len() == 0 {
        Seq::empty()
    } else {
        spec_escape_char(s[0]) + spec_escape(s.drop_first())
    }
}

/// How a SQL parser reads a single-quoted literal body back: a doubled
/// single quote denotes one quote character, everything else denotes itself.
pub open spec fn spec_unescape(s: Seq<char>) -> Seq<char>
    decreases s.len(),
{
    if s.len() == 0 {
        Seq::empty()
    } else if s.len() >= 2 && s[0] == '\'' && s[1] == '\'' {
        seq!['\''] + spec_unescape(s.skip(2))
    } else {
        seq![s[0]] + spec_unescape(s.skip(1))
    }
}

/// Number of single-quote characters in a text.
pub open spec fn count_quotes(s: Seq<char>) -> nat
    decreases s.len(),
{
    if s.len() == 0 {
        0
    } else {
        (if s[0] == '\'' {
            1nat
        } else {
            0nat
        }) + count_quotes(s.drop_first())
    }
}

proof fn lemma_escape_snoc(s: Seq<char>, c: char)
    ensures
        spec_escape(s.push(c)) == spec_escape(s) + spec_escape_char(c),
    decreases s.len(),
{
    if s.len() == 0 {
        assert(s.push(c)[0] == c);
        assert(s.push(c).drop_first() =~= Seq::<char>::empty());
        assert(spec_escape(Seq::<char>::empty()) == Seq::<char>::empty());
        assert(spec_escape(s.push(c)) == spec_escape_char(c) + Seq::<char>::empty());
        assert(spec_escape(s.push(c)) =~= spec_escape(s) + spec_escape_char(c));
    } else {
        assert(s.push(c)[0] == s[0]);
        assert(s.push(c).drop_first() =~= s.drop_first().push(c));
        lemma_escape_snoc(s.drop_first(), c);
        assert(spec_escape(s.push(c)) =~= spec_escape(s) + spec_escape_char(c));
    }
}

proof fn lemma_count_quotes_concat(a: Seq<char>, b: Seq<char>)
    ensures
        count_quotes(a + b) == count_quotes(a) + count_quotes(b),
    decreases a.len(),
{
    if a.len() == 0 {
        assert(a + b =~= b);
    } else {
        assert((a + b)[0] == a[0]);
        assert((a + b).drop_first() =~= a.drop_first() + b);
        lemma_count_quotes_concat(a.drop_first(), b);
    }
}

/// Escaping doubles the single quotes and touches nothing else, so the
/// escaped text holds exactly twice as many single quotes as the original.
pub proof fn lemma_escape_doubles_quotes(s: Seq<char>)
    ensures
        count_quotes(spec_escape(s)) == 2 * count_quotes(s),
    decreases s.len(),
{
    if s.len() == 0 {
    } else {
        lemma_count_quotes_concat(spec_escape_char(s[0]), spec_escape(s.drop_first()));
        lemma_escape_doubles_quotes(s.drop_first());
        assert(count_quotes(Seq::<char>::empty()) == 0);
        if s[0] == '\'' {
            assert(count_quotes(spec_escape_char(s[0])) == 2) by {
                assert(count_quotes(Seq::<char>::empty()) == 0);
                assert(seq!['\''].drop_first() =~= Seq::<char>::empty());
                assert(count_quotes(seq!['\'']) == 1);
                assert(spec_escape_char(s[0]).drop_first() =~= seq!['\'']);
                assert(count_quotes(spec_escape_char(s[0])) == 1 + count_quotes(seq!['\'']));
            }
        } else {
            assert(count_quotes(spec_escape_char(s[0])) == 0) by {
                assert(count_quotes(Seq::<char>::empty()) == 0);
                assert(spec_escape_char(s[0]).drop_first() =~= Seq::<char>::empty());
            }
        }
    }
}

/// Round trip: reading the escaped text back as a SQL literal body yields
/// the original text, so embedding loses nothing.
pub proof fn lemma_unescape_escape(s: Seq<char>)
    ensures
        spec_unescape(spec_escape(s)) == s,
    decreases s.len(),
{
    if s.len() == 0 {
    } else {
        let e = spec_escape(s);
        lemma_unescape_escape(s.drop_first());
        if s[0] == '\'' {
            assert(e[0] == '\'' && e[1] == '\'');
            assert(e.skip(2) =~= spec_escape(s.drop_first()));
            assert(spec_unescape(e) =~= s);
        } else {
            assert(e[0] == s[0]);
            assert(e.skip(1) =~= spec_escape(s.drop_first()));
            assert(spec_unescape(e) =~= s);
        }
    }
}

/// The character of one decimal digit.
pub open spec fn spec_digit_char(d: nat) -> char {
    if d == 0 {
        '0'
    } else if d == 1 {
        '1'
    } else if d == 2 {
        '2'
    } else if d == 3 {
        '3'
    } else if d == 4 {
        '4'
    } else if d == 5 {
        '5'
    } else if d == 6 {
        '6'
    } else if d == 7 {
        '7'
    } else if d == 8 {
        '8'
    } else {
        '9'
    }
}

/// Decimal digits of a nonnegative number, most significant first, with no
/// leading zero except for the number zero itself.
pub open spec fn spec_dec_digits(n: nat) -> Seq<char>
    decreases n,
{
    if n < 10 {
        seq![spec_digit_char(n)]
    } else {
        spec_dec_digits(n / 10).push(spec_digit_char(n % 10))
    }
}

/// Decimal rendering of an integer: its digits, with a leading minus sign
/// when the value is negative.
pub open spec fn spec_dec(v: int) -> Seq<char> {
    if v < 0 {
        seq!['-'] + spec_dec_digits((-v) as nat)
    } else {
        spec_dec_digits(v as nat)
    }
}

/// How a boolean parameter is embedded in SQL text.
pub open spec fn spec_bool_str(b: bool) -> Seq<char> {
    if b {
        "true"@
    } else {
        "false"@
    }
}

/// Relies on i64's Display implementation: an integer formats as its decimal
/// digits in base ten, with a leading minus sign when negative.
#[verifier::external_body]
pub(crate) fn i64_to_dec(v: i64) -> (r: String)
    ensures
        r@ == spec_dec(v as int),
{
    v.to_string()
}

/// Renders a boolean the way it is embedded in a synthesized statement.
pub fn bool_to_sql(b: bool) -> (r: &'static str)
    ensures
        r@ == spec_bool_str(b),
{
    if b {
        "true"
    } else {
        "false"
    }
}

/// Relies on String's FromIterator<char>: collecting chars yields a string
/// made of exactly those chars in order.
#[verifier::external_body]
fn chars_to_string(v: &Vec<char>) -> (r: String)
    ensures
        r@ == v@,
{
    v.iter().collect()
}

/// Doubles every single quote in `s`, leaving all other characters as they
/// are, so the result can stand inside a single-quoted SQL literal.
pub fn escape_quotes(s: &str) -> (r: String)
    ensures
        r@ == spec_escape(s@),
{
    let n = s.unicode_len();
    let mut out: Vec<char> = Vec::new();
    let mut i: usize = 0;
    while i < n
        invariant
            n == s@.len(),
            i <= n,
            out@ == spec_escape(s@.take(i as int)),
        decreases n - i,
    {
        let c = s.get_char(i);
        proof {
            lemma_escape_snoc(s@.take(i as int), s@[i as int]);
            assert(s@.take(i as int + 1) =~= s@.take(i as int).push(s@[i as int]));
        }
        if c == '\'' {
            out.push('\'');
            out.push('\'');
        } else {
            out.push(c);
        }
        assert(out@ =~= spec_escape(s@.take(i as int)) + spec_escape_char(s@[i as int]));
        i += 1;
    }
    proof {
        assert(s@.take(n as int) =~= s@);
    }
    chars_to_string(&out)
}

} // verus!
