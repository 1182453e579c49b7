//! Bytes as printable text.
use vstd::prelude::*;

verus! {

/// Appends a character to a string.
///
/// Not proved, but documented of `String::push`: the character is added behind those that the
/// string holds.
pub assume_specification[ String::push ](s: &mut String, c: char)
    ensures
        final(s)@ == old(s)@.push(c),
;

/// The lower-case hexadecimal digit for a number below 16.
pub open spec fn hex_digit_spec(n: u8) -> char {
    if n < 10 {
        (0x30 + n) as char
    } else {
        (0x61 + (n - 10)) as char
    }
}

/// The characters that stand for one byte: a backslash and a letter or sign for a tab, a carriage
/// return, a line feed, either quotation mark and the backslash, the character itself for any other
/// printable character of ASCII, and `\x` with two hexadecimal digits for the rest.
pub open spec fn escape_byte(b: u8) -> Seq<char> {
    if b == 0x09 {
        seq!['\\', 't']
    } else if b == 0x0d {
        seq!['\\', 'r']
    } else if b == 0x0a {
        seq!['\\', 'n']
    } else if b == 0x27 || b == 0x22 || b == 0x5c {
        seq!['\\', b as char]
    } else if 0x20 <= b <= 0x7e {
        seq![b as char]
    } else {
        seq!['\\', 'x', hex_digit_spec(b / 16), hex_digit_spec(b % 16)]
    }
}

/// The characters that stand for a row of bytes, one byte after another.
pub open spec fn escape_bytes(bytes: Seq<u8>) -> Seq<char>
    decreases bytes.len(),
{
    if bytes.len() == 0 {
        seq![]
    } else {
        escape_byte(bytes[0]) + escape_bytes(bytes.drop_first())
    }
}

/// Returns the lower-case hexadecimal digit for a number below 16.
fn hex_digit(n: u8) -> (c: char)
    requires
        n < 16,
    ensures
        c == hex_digit_spec(n),
{
    if n < 10 {
        (0x30 + n) as char
    } else {
        (0x61 + (n - 10)) as char
    }
}

/// Appends the characters that stand for one byte.
fn push_escaped(text: &mut String, b: u8)
    ensures
        final(text)@ == old(text)@ + escape_byte(b),
{
    if b == 0x09 {
        text.push('\\');
        text.push('t');
    } else if b == 0x0d {
        text.push('\\');
        text.push('r');
    } else if b == 0x0a {
        text.push('\\');
        text.push('n');
    } else if b == 0x27 || b == 0x22 || b == 0x5c {
        text.push('\\');
        text.push(b as char);
    } else if 0x20 <= b && b <= 0x7e {
        text.push(b as char);
    } else {
        text.push('\\');
        text.push('x');
        text.push(hex_digit(b / 16));
        text.push(hex_digit(b % 16));
    }
    proof {
        assert(text@ =~= old(text)@ + escape_byte(b));
    }
}

/// Returns the bytes as text between double quotation marks, with everything that is not printable
/// escaped.
pub fn ascii_escaped(bytes: &[u8]) -> (text: String)
    ensures
        text@ == seq!['"'] + escape_bytes(bytes@) + seq!['"'],
{
    let mut text = String::new();
    text.push('"');
    let mut i: usize = 0;
    proof {
        assert(bytes@.skip(0) =~= bytes@);
        assert(text@ + escape_bytes(bytes@) =~= seq!['"'] + escape_bytes(bytes@));
    }
    while i < bytes.len()
        invariant
            i <= bytes@.len(),
            text@ + escape_bytes(bytes@.skip(i as int)) == seq!['"'] + escape_bytes(bytes@),
        decreases bytes@.len() - i,
    {
        let ghost before = text@;
        let ghost rest = bytes@.skip(i as int);
        push_escaped(&mut text, bytes[i]);
        i = i + 1;
        proof {
            assert(rest.drop_first() =~= bytes@.skip(i as int));
            assert(rest[0] == bytes@[i - 1]);
            assert(text@ + escape_bytes(bytes@.skip(i as int)) =~= before + escape_bytes(rest));
        }
    }
    proof {
        assert(bytes@.skip(i as int).len() == 0);
        assert(text@ =~= text@ + escape_bytes(bytes@.skip(i as int)));
    }
    text.push('"');
    proof {
        assert(text@ =~= seq!['"'] + escape_bytes(bytes@) + seq!['"']);
    }
    text
}

/// Where the text for one byte and something behind it is the text for another byte and something
/// behind that, the bytes are the same, and so is what stands behind them.
proof fn lemma_escape_byte_splits(a: u8, b: u8, s: Seq<char>, t: Seq<char>)
    requires
        escape_byte(a) + s == escape_byte(b) + t,
    ensures
        a == b,
        s == t,
{
    let x = escape_byte(a) + s;
    let y = escape_byte(b) + t;
    assert(x[0] == y[0]);
    assert(x[0] == escape_byte(a)[0]);
    assert(y[0] == escape_byte(b)[0]);
    if x[0] == '\\' {
        assert(x[1] == y[1]);
        assert(x[1] == escape_byte(a)[1]);
        assert(y[1] == escape_byte(b)[1]);
        if x[1] == 'x' {
            assert(x[2] == y[2]);
            assert(x[2] == escape_byte(a)[2]);
            assert(y[2] == escape_byte(b)[2]);
            assert(x[3] == y[3]);
            assert(x[3] == escape_byte(a)[3]);
            assert(y[3] == escape_byte(b)[3]);
            assert(a / 16 == b / 16);
            assert(a % 16 == b % 16);
        }
    }
    assert(a == b);
    assert(s =~= x.skip(escape_byte(a).len() as int));
    assert(t =~= y.skip(escape_byte(b).len() as int));
}

/// Different rows of bytes are shown differently.
pub proof fn law_escape_is_injective(a: Seq<u8>, b: Seq<u8>)
    requires
        escape_bytes(a) == escape_bytes(b),
    ensures
        a == b,
    decreases a.len(),
{
    if a.len() == 0 || b.len() == 0 {
        assert(escape_bytes(a).len() == 0);
        assert(escape_bytes(b).len() == 0);
        assert(a =~= b);
    } else {
        lemma_escape_byte_splits(
            a[0],
            b[0],
            escape_bytes(a.drop_first()),
            escape_bytes(b.drop_first()),
        );
        law_escape_is_injective(a.drop_first(), b.drop_first());
        assert(a =~= seq![a[0]] + a.drop_first());
        assert(b =~= seq![b[0]] + b.drop_first());
    }
}

/// What is shown is printable ASCII throughout.
pub proof fn law_escape_is_printable(bytes: Seq<u8>, i: int)
    requires
        0 <= i < escape_bytes(bytes).len(),
    ensures
        ' ' <= escape_bytes(bytes)[i] <= '~',
    decreases bytes.len(),
{
    let head = escape_byte(bytes[0]);
    if i >= head.len() {
        law_escape_is_printable(bytes.drop_first(), i - head.len());
    }
}

/// Bytes are shown one after another.
pub proof fn law_escape_goes_byte_by_byte(a: Seq<u8>, b: Seq<u8>)
    ensures
        escape_bytes(a + b) == escape_bytes(a) + escape_bytes(b),
        escape_bytes(Seq::<u8>::empty()) == Seq::<char>::empty(),
    decreases a.len(),
{
    if a.len() == 0 {
        assert(a + b =~= b);
        assert(escape_bytes(a) + escape_bytes(b) =~= escape_bytes(b));
    } else {
        law_escape_goes_byte_by_byte(a.drop_first(), b);
        assert((a + b).drop_first() =~= a.drop_first() + b);
        assert((a + b)[0] == a[0]);
        assert(escape_bytes(a + b) =~= escape_bytes(a) + escape_bytes(b));
    }
}

/// One byte is shown as itself where it is printable and neither a quotation mark nor a backslash,
/// and else behind a backslash: these as themselves, a tab, a line feed and a carriage return as a
/// letter, and every other byte as `x` and the two digits of its hexadecimal number.
pub proof fn law_escape_of_one_byte(b: u8)
    ensures
        ({
            let text = escape_bytes(seq![b]);
            let special = b == 34 || b == 39 || b == 92;
            &&& 32 <= b <= 126 && !special ==> text.len() == 1 && text[0] as int == b as int
            &&& special ==> text.len() == 2 && text[0] == '\\' && text[1] as int == b as int
            &&& b == 9 ==> text == seq!['\\', 't']
            &&& b == 10 ==> text == seq!['\\', 'n']
            &&& b == 13 ==> text == seq!['\\', 'r']
            &&& (b < 32 || b > 126) && b != 9 && b != 10 && b != 13 ==> {
                &&& text.len() == 4
                &&& text[0] == '\\'
                &&& text[1] == 'x'
                &&& text[2] as int == if b / 16 < 10 {
                    48 + b / 16
                } else {
                    87 + b / 16
                }
                &&& text[3] as int == if b % 16 < 10 {
                    48 + b % 16
                } else {
                    87 + b % 16
                }
            }
        }),
{
    reveal_with_fuel(escape_bytes, 2);
    assert(seq![b].drop_first().len() == 0);
    assert(escape_bytes(seq![b]) =~= escape_byte(b));
}

} // verus!
