//! Low-level text building: appending characters, decimal and hexadecimal
//! digits, and double-quoted string literals with escaping.  Shared by the
//! identifier sanitizer and the renderer.
use vstd::prelude::*;

verus! {

/// The character for one digit value below 16, lowercase.
pub open spec fn digit_char(d: nat) -> char {
    if d == 0 {
        '0'
    } else if d == 1 {
        '1'
    } else if d == 2 {
        '2'
    } else if d == 3 {
        '3'
    } else if d == 4 {
        '4'
    } else if d == 5 {
        '5'
    } else if d == 6 {
        '6'
    } else if d == 7 {
        '7'
    } else if d == 8 {
        '8'
    } else if d == 9 {
        '9'
    } else if d == 10 {
        'a'
    } else if d == 11 {
        'b'
    } else if d == 12 {
        'c'
    } else if d == 13 {
        'd'
    } else if d == 14 {
        'e'
    } else {
        'f'
    }
}

/// Lowercase hexadecimal digits of `n`, most significant first, no padding.
pub open spec fn hex_text(n: nat) -> Seq<char>
    decreases n,
{
    if n < 16 {
        seq![digit_char(n)]
    } else {
        hex_text(n / 16).push(digit_char(n % 16))
    }
}

/// Decimal digits of `n`, most significant first, no padding.
pub open spec fn udec_text(n: nat) -> Seq<char>
    decreases n,
{
    if n < 10 {
        seq![digit_char(n)]
    } else {
        udec_text(n / 10).push(digit_char(n % 10))
    }
}

/// Minimal decimal form of a signed number: a `-` sign for negatives,
/// then the digits.
pub open spec fn dec_text(v: int) -> Seq<char> {
    if v < 0 {
        seq!['-'] + udec_text((-v) as nat)
    } else {
        udec_text(v as nat)
    }
}

/// A character escaped for use inside an identifier: `$` followed by the
/// lowercase hexadecimal of its code point, without padding.
pub open spec fn escape_text(c: char) -> Seq<char> {
    seq!['$'] + hex_text((c as u32) as nat)
}

/// Four-digit lowercase hexadecimal, for `\u` escapes in string literals.
pub open spec fn hex4_text(n: nat) -> Seq<char> {
    seq![
        digit_char((n / 4096) % 16),
        digit_char((n / 256) % 16),
        digit_char((n / 16) % 16),
        digit_char(n % 16),
    ]
}

/// One character as it appears inside a double-quoted string literal:
/// quotes, backslashes and control characters are escaped.
pub open spec fn quote_char_text(c: char) -> Seq<char> {
    if c == '"' {
        seq!['\\', '"']
    } else if c == '\\' {
        seq!['\\', '\\']
    } else if c == '\n' {
        seq!['\\', 'n']
    } else if c == '\r' {
        seq!['\\', 'r']
    } else if c == '\t' {
        seq!['\\', 't']
    } else if (c as u32) < 32 {
        seq!['\\', 'u'] + hex4_text((c as u32) as nat)
    } else {
        seq![c]
    }
}

/// The body of a double-quoted string literal.
pub open spec fn quote_body_text(s: Seq<char>) -> Seq<char>
    decreases s.len(),
{
    if s.len() == 0 {
        Seq::<char>::empty()
    } else {
        quote_char_text(s[0]) + quote_body_text(s.drop_first())
    }
}

/// A double-quoted string literal with escaping.
pub open spec fn quoted_text(s: Seq<char>) -> Seq<char> {
    seq!['"'] + quote_body_text(s) + seq!['"']
}

/// Relies on String::push: it appends exactly the one given character.
#[verifier::external_body]
pub(crate) fn push_char(out: &mut String, c: char)
    ensures
        final(out)@ == old(out)@ + seq![c],
{
    out.push(c);
}

pub(crate) fn push_digit(out: &mut String, d: u32)
    requires
        d < 16,
    ensures
        final(out)@ == old(out)@ + seq![digit_char(d as nat)],
{
    if d == 0 {
        proof {
            reveal_strlit("0");
        }
        out.append("0");
    } else if d == 1 {
        proof {
            reveal_strlit("1");
        }
        out.append("1");
    } else if d == 2 {
        proof {
            reveal_strlit("2");
        }
        out.append("2");
    } else if d == 3 {
        proof {
            reveal_strlit("3");
        }
        out.append("3");
    } else if d == 4 {
        proof {
            reveal_strlit("4");
        }
        out.append("4");
    } else if d == 5 {
        proof {
            reveal_strlit("5");
        }
        out.append("5");
    } else if d == 6 {
        proof {
            reveal_strlit("6");
        }
        out.append("6");
    } else if d == 7 {
        proof {
            reveal_strlit("7");
        }
        out.append("7");
    } else if d == 8 {
        proof {
            reveal_strlit("8");
        }
        out.append("8");
    } else if d == 9 {
        proof {
            reveal_strlit("9");
        }
        out.append("9");
    } else if d == 10 {
        proof {
            reveal_strlit("a");
        }
        out.append("a");
    } else if d == 11 {
        proof {
            reveal_strlit("b");
        }
        out.append("b");
    } else if d == 12 {
        proof {
            reveal_strlit("c");
        }
        out.append("c");
    } else if d == 13 {
        proof {
            reveal_strlit("d");
        }
        out.append("d");
    } else if d == 14 {
        proof {
            reveal_strlit("e");
        }
        out.append("e");
    } else {
        proof {
            reveal_strlit("f");
        }
        out.append("f");
    }
    assert(final(out)@ =~= old(out)@ + seq![digit_char(d as nat)]);
}

pub(crate) fn push_hex(out: &mut String, n: u32)
    ensures
        final(out)@ == old(out)@ + hex_text(n as nat),
    decreases n,
{
    if n < 16 {
        push_digit(out, n);
    } else {
        push_hex(out, n / 16);
        push_digit(out, n % 16);
        assert(out@ =~= old(out)@ + hex_text(n as nat));
    }
}

pub(crate) fn push_udec(out: &mut String, n: u64)
    ensures
        final(out)@ == old(out)@ + udec_text(n as nat),
    decreases n,
{
    if n < 10 {
        push_digit(out, n as u32);
    } else {
        push_udec(out, n / 10);
        push_digit(out, (n % 10) as u32);
        assert(out@ =~= old(out)@ + udec_text(n as nat));
    }
}

pub(crate) fn push_i32(out: &mut String, v: i32)
    ensures
        final(out)@ == old(out)@ + dec_text(v as int),
{
    if v < 0 {
        proof {
            reveal_strlit("-");
        }
        out.append("-");
        let m: i64 = -(v as i64);
        let mag: u64 = m as u64;
        assert(mag == -(v as int));
        push_udec(out, mag);
        assert(out@ =~= old(out)@ + dec_text(v as int));
    } else {
        push_udec(out, v as u64);
    }
}

pub(crate) fn escape_char(c: char) -> (r: String)
    ensures
        r@ == escape_text(c),
{
    proof {
        reveal_strlit("$");
    }
    let mut s = String::from_str("$");
    assert(s@ =~= seq!['$']);
    push_hex(&mut s, c as u32);
    s
}

fn push_quote_char(out: &mut String, c: char)
    ensures
        final(out)@ == old(out)@ + quote_char_text(c),
{
    let n = c as u32;
    if c == '"' {
        proof {
            reveal_strlit("\\\"");
        }
        out.append("\\\"");
        assert(out@ =~= old(out)@ + quote_char_text(c));
    } else if c == '\\' {
        proof {
            reveal_strlit("\\\\");
        }
        out.append("\\\\");
        assert(out@ =~= old(out)@ + quote_char_text(c));
    } else if c == '\n' {
        proof {
            reveal_strlit("\\n");
        }
        out.append("\\n");
        assert(out@ =~= old(out)@ + quote_char_text(c));
    } else if c == '\r' {
        proof {
            reveal_strlit("\\r");
        }
        out.append("\\r");
        assert(out@ =~= old(out)@ + quote_char_text(c));
    } else if c == '\t' {
        proof {
            reveal_strlit("\\t");
        }
        out.append("\\t");
        assert(out@ =~= old(out)@ + quote_char_text(c));
    } else if n < 32 {
        proof {
            reveal_strlit("\\u");
        }
        out.append("\\u");
        push_digit(out, (n / 4096) % 16);
        push_digit(out, (n / 256) % 16);
        push_digit(out, (n / 16) % 16);
        push_digit(out, n % 16);
        assert(out@ =~= old(out)@ + quote_char_text(c));
    } else {
        push_char(out, c);
    }
}

proof fn lemma_quote_body_push(s: Seq<char>, c: char)
    ensures
        quote_body_text(s.push(c)) == quote_body_text(s) + quote_char_text(c),
    decreases s.len(),
{
    if s.len() == 0 {
        assert(s.push(c).drop_first() =~= Seq::<char>::empty());
        assert(s.push(c)[0] == c);
        assert(quote_body_text(s.push(c)) == quote_char_text(c) + quote_body_text(
            Seq::<char>::empty(),
        ));
        assert(quote_body_text(s.push(c)) =~= quote_body_text(s) + quote_char_text(c));
    } else {
        assert(s.push(c).drop_first() =~= s.drop_first().push(c));
        lemma_quote_body_push(s.drop_first(), c);
        assert(quote_body_text(s.push(c)) =~= quote_body_text(s) + quote_char_text(c));
    }
}

/// Append a double-quoted, escaped string literal holding the text of `s`.
pub(crate) fn push_quoted(out: &mut String, s: &str)
    ensures
        final(out)@ == old(out)@ + quoted_text(s@),
{
    proof {
        reveal_strlit("\"");
    }
    out.append("\"");
    let n = s.unicode_len();
    let mut i: usize = 0;
    #[verifier::loop_isolation(false)]
    while i < n
        invariant
            i <= n,
            out@ == old(out)@ + seq!['"'] + quote_body_text(s@.subrange(0, i as int)),
        decreases n - i,
    {
        let c = s.get_char(i);
        push_quote_char(out, c);
        proof {
            assert(s@.subrange(0, i + 1 as int) =~= s@.subrange(0, i as int).push(s@[i as int]));
            lemma_quote_body_push(s@.subrange(0, i as int), s@[i as int]);
            assert(out@ =~= old(out)@ + seq!['"'] + quote_body_text(s@.subrange(0, i + 1 as int)));
        }
        i += 1;
    }
    proof {
        assert(s@.subrange(0, n as int) =~= s@);
    }
    out.append("\"");
    assert(out@ =~= old(out)@ + quoted_text(s@));
}

/// A verified character-by-character comparison of two string slices.
pub(crate) fn str_equal(a: &str, b: &str) -> (r: bool)
    ensures
        r == (a@ == b@),
{
    let n = a.unicode_len();
    let m = b.unicode_len();
    if n != m {
        assert(a@ != b@) by {
            assert(a@.len() != b@.len());
        }
        return false;
    }
    let mut i: usize = 0;
    #[verifier::loop_isolation(false)]
    while i < n
        invariant
            i <= n,
            forall|j: int| 0 <= j < i ==> a@[j] == b@[j],
        decreases n - i,
    {
        if a.get_char(i) != b.get_char(i) {
            assert(a@[i as int] != b@[i as int]);
            return false;
        }
        i += 1;
    }
    assert(a@ =~= b@);
    true
}

} // verus!

