//! Building blocks of the display renderer: decimal numbers, byte-count
//! phrases, and printable/escaped text for raw byte values. Every function
//! returns exactly the character sequence its specification names, so a
//! rendered report is a pure function of the error it describes.

use vstd::prelude::*;
use vstd::string::StringExecFns;

use crate::input::{Input, InputModel};

verus! {

/// The decimal digit character for `d`.
pub open spec fn digit_char(d: int) -> char {
    if d == 0 {
        '0'
    } else if d == 1 {
        '1'
    } else if d == 2 {
        '2'
    } else if d == 3 {
        '3'
    } else if d == 4 {
        '4'
    } else if d == 5 {
        '5'
    } else if d == 6 {
        '6'
    } else if d == 7 {
        '7'
    } else if d == 8 {
        '8'
    } else {
        '9'
    }
}

/// The decimal rendering of `n`, most significant digit first.
pub open spec fn dec_seq(n: int) -> Seq<char>
    decreases n,
{
    if n < 10 {
        seq![digit_char(n)]
    } else {
        dec_seq(n / 10).push(digit_char(n % 10))
    }
}

fn digit_str(d: usize) -> (r: &'static str)
    requires
        d < 10,
    ensures
        r@ == seq![digit_char(d as int)],
{
    let r: &'static str = if d == 0 {
        "0"
    } else if d == 1 {
        "1"
    } else if d == 2 {
        "2"
    } else if d == 3 {
        "3"
    } else if d == 4 {
        "4"
    } else if d == 5 {
        "5"
    } else if d == 6 {
        "6"
    } else if d == 7 {
        "7"
    } else if d == 8 {
        "8"
    } else {
        "9"
    };
    proof {
        reveal_strlit("0");
        reveal_strlit("1");
        reveal_strlit("2");
        reveal_strlit("3");
        reveal_strlit("4");
        reveal_strlit("5");
        reveal_strlit("6");
        reveal_strlit("7");
        reveal_strlit("8");
        reveal_strlit("9");
        assert(r@ =~= seq![digit_char(d as int)]);
    }
    r
}

/// Render `n` in decimal.
pub fn dec_string(n: usize) -> (r: String)
    ensures
        r@ == dec_seq(n as int),
    decreases n,
{
    if n < 10 {
        String::from_str(digit_str(n))
    } else {
        let mut s = dec_string(n / 10);
        s.append(digit_str(n % 10));
        proof {
            assert(s@ =~= dec_seq(n as int));
        }
        s
    }
}

/// The byte-count phrase for `n`: "no bytes", "1 byte", or "`n` bytes".
pub open spec fn byte_count_seq(n: int) -> Seq<char> {
    if n == 0 {
        "no bytes"@
    } else if n == 1 {
        "1 byte"@
    } else {
        dec_seq(n) + " bytes"@
    }
}

/// Render the byte-count phrase for `n`.
pub fn byte_count_string(n: usize) -> (r: String)
    ensures
        r@ == byte_count_seq(n as int),
{
    if n == 0 {
        String::from_str("no bytes")
    } else if n == 1 {
        String::from_str("1 byte")
    } else {
        let mut s = dec_string(n);
        s.append(" bytes");
        s
    }
}

/// The hexadecimal digit character for `d`.
pub open spec fn hex_char(d: int) -> char {
    if d < 10 {
        digit_char(d)
    } else if d == 10 {
        'a'
    } else if d == 11 {
        'b'
    } else if d == 12 {
        'c'
    } else if d == 13 {
        'd'
    } else if d == 14 {
        'e'
    } else {
        'f'
    }
}

fn hex_char_exec(d: u8) -> (r: char)
    requires
        d < 16,
    ensures
        r == hex_char(d as int),
{
    if d == 0 {
        '0'
    } else if d == 1 {
        '1'
    } else if d == 2 {
        '2'
    } else if d == 3 {
        '3'
    } else if d == 4 {
        '4'
    } else if d == 5 {
        '5'
    } else if d == 6 {
        '6'
    } else if d == 7 {
        '7'
    } else if d == 8 {
        '8'
    } else if d == 9 {
        '9'
    } else if d == 10 {
        'a'
    } else if d == 11 {
        'b'
    } else if d == 12 {
        'c'
    } else if d == 13 {
        'd'
    } else if d == 14 {
        'e'
    } else {
        'f'
    }
}

/// Relies on `String::push` from std: appends exactly the given character to
/// the end of the string.
#[verifier::external_body]
fn push_char(s: &mut String, c: char)
    ensures
        final(s)@ == old(s)@.push(c),
{
    s.push(c);
}

/// Printable rendering of one byte: printable ASCII other than the quote and
/// the backslash stands for itself; every other byte is hex-escaped.
pub open spec fn escape_byte(b: u8) -> Seq<char> {
    if 0x20 <= b && b < 0x7f && b != 0x27 && b != 0x5c {
        seq![b as char]
    } else {
        seq!['\\', 'x', hex_char(b as int / 16), hex_char(b as int % 16)]
    }
}

/// Printable rendering of a byte sequence, one byte at a time.
pub open spec fn escape_bytes(bs: Seq<u8>) -> Seq<char>
    decreases bs.len(),
{
    if bs.len() == 0 {
        Seq::empty()
    } else {
        escape_byte(bs[0]) + escape_bytes(bs.drop_first())
    }
}

/// Render a byte sequence as printable/escaped text.
pub fn escape_string(bs: &[u8]) -> (r: String)
    ensures
        r@ == escape_bytes(bs@),
{
    let mut out = String::new();
    let mut i: usize = 0;
    proof {
        assert(bs@.skip(0) =~= bs@);
        assert(out@ + escape_bytes(bs@) =~= escape_bytes(bs@));
    }
    while i < bs.len()
        invariant
            0 <= i <= bs@.len(),
            out@ + escape_bytes(bs@.skip(i as int)) == escape_bytes(bs@),
        decreases bs@.len() - i,
    {
        let ghost pre = out@;
        let b = bs[i];
        // 0x27 is the single quote, 0x5c the backslash.
        if 0x20 <= b && b < 0x7f && b != 0x27 && b != 0x5c {
            push_char(&mut out, b as char);
        } else {
            out.append("\\x");
            push_char(&mut out, hex_char_exec(b / 16));
            push_char(&mut out, hex_char_exec(b % 16));
            proof {
                reveal_strlit("\\x");
                assert(out@ =~= pre + escape_byte(b));
            }
        }
        proof {
            assert(out@ =~= pre + escape_byte(b));
            assert(bs@.skip(i as int).drop_first() =~= bs@.skip(i as int + 1));
            assert(escape_bytes(bs@.skip(i as int)) == escape_byte(bs@[i as int]) + escape_bytes(
                bs@.skip(i as int + 1),
            ));
            assert(out@ + escape_bytes(bs@.skip(i as int + 1)) =~= pre + escape_bytes(
                bs@.skip(i as int),
            ));
        }
        i += 1;
    }
    proof {
        assert(bs@.skip(bs@.len() as int) =~= Seq::empty());
        assert(out@ =~= out@ + escape_bytes(bs@.skip(bs@.len() as int)));
    }
    out
}

/// The length-constraint phrase, chosen by this exact precedence on
/// (`min`, `max`): a zero minimum with a maximum present reads "at most";
/// an absent maximum reads "at least"; an exact length reads "exactly";
/// anything else names both bounds.
pub open spec fn length_phrase(min: int, max: Option<int>) -> Seq<char> {
    if min == 0 && max is Some {
        "at most "@ + byte_count_seq(max.unwrap())
    } else if max is None {
        "at least "@ + byte_count_seq(min)
    } else if min == max.unwrap() {
        "exactly "@ + byte_count_seq(min)
    } else {
        "at least "@ + byte_count_seq(min) + " and at most "@ + byte_count_seq(max.unwrap())
    }
}

/// Render the length-constraint phrase for the bounds (`min`, `max`).
pub fn length_phrase_string(min: usize, max: Option<usize>) -> (r: String)
    ensures
        r@ == length_phrase(min as int, spec_opt_int(max)),
{
    match max {
        Some(m) => {
            if min == 0 {
                let mut s = String::from_str("at most ");
                let c = byte_count_string(m);
                s.append(c.as_str());
                s
            } else if min == m {
                let mut s = String::from_str("exactly ");
                let c = byte_count_string(min);
                s.append(c.as_str());
                s
            } else {
                let mut s = String::from_str("at least ");
                let c = byte_count_string(min);
                s.append(c.as_str());
                s.append(" and at most ");
                let c2 = byte_count_string(m);
                s.append(c2.as_str());
                s
            }
        },
        None => {
            let mut s = String::from_str("at least ");
            let c = byte_count_string(min);
            s.append(c.as_str());
            s
        },
    }
}

/// The bounds of a length constraint, as mathematical integers.
pub open spec fn spec_opt_int(v: Option<usize>) -> Option<int> {
    match v {
        Option::Some(m) => Option::Some(m as int),
        Option::None => Option::None,
    }
}

/// The whole description fragment of a length error: the byte count that was
/// found, and the phrase for the bounds that were expected.
pub open spec fn length_description(min: int, max: Option<int>, have: int) -> Seq<char> {
    "found "@ + byte_count_seq(have) + " when "@ + length_phrase(min, max) + " was expected"@
}

/// Render the description fragment of a length error.
pub fn length_description_string(min: usize, max: Option<usize>, have: usize) -> (r: String)
    ensures
        r@ == length_description(min as int, spec_opt_int(max), have as int),
{
    let mut s = String::from_str("found ");
    let c = byte_count_string(have);
    s.append(c.as_str());
    s.append(" when ");
    let p = length_phrase_string(min, max);
    s.append(p.as_str());
    s.append(" was expected");
    s
}

/// One report line per operation label, innermost first.
pub open spec fn context_lines(ops: Seq<Seq<char>>) -> Seq<char>
    decreases ops.len(),
{
    if ops.len() == 0 {
        Seq::empty()
    } else {
        "\n  in: "@ + ops[0] + context_lines(ops.drop_first())
    }
}

/// The optional report line for a found or expected value.
pub open spec fn value_line(label: Seq<char>, v: Option<InputModel>) -> Seq<char> {
    match v {
        Option::None => Seq::empty(),
        Option::Some(m) => label + escape_bytes(m.bytes) + "'"@,
    }
}

/// Model of an optional borrowed input.
pub open spec fn view_opt(v: Option<&Input>) -> Option<InputModel> {
    match v {
        Option::None => Option::None,
        Option::Some(i) => Option::Some(i@),
    }
}

/// The whole rendered report: the description line; the failing span's
/// offset and length relative to the full input; the found and expected
/// values, when present, as printable/escaped text; and one line per
/// operation label, innermost first.
pub open spec fn render_spec(
    desc: Seq<char>,
    rel_offset: int,
    span_len: int,
    found: Option<InputModel>,
    expected: Option<InputModel>,
    ops: Seq<Seq<char>>,
) -> Seq<char> {
    "error: "@ + desc + "\n  at offset "@ + dec_seq(rel_offset) + ", length "@ + dec_seq(span_len)
        + value_line("\n  found: '"@, found) + value_line("\n  expected: '"@, expected)
        + context_lines(ops)
}

/// Render a whole report from its parts.
pub(crate) fn render_parts(
    desc: &String,
    rel_offset: usize,
    span_len: usize,
    found: Option<&Input>,
    expected: Option<&Input>,
    operation: &'static str,
    context_ops: &Vec<&'static str>,
) -> (r: String)
    ensures
        r@ == render_spec(
            desc@,
            rel_offset as int,
            span_len as int,
            view_opt(found),
            view_opt(expected),
            seq![operation@] + context_ops@.map_values(|s: &'static str| s@),
        ),
{
    let ghost allops = seq![operation@] + context_ops@.map_values(|s: &'static str| s@);
    let mut out = String::from_str("error: ");
    out.append(desc.as_str());
    out.append("\n  at offset ");
    let d1 = dec_string(rel_offset);
    out.append(d1.as_str());
    out.append(", length ");
    let d2 = dec_string(span_len);
    out.append(d2.as_str());
    let ghost head = out@;
    match found {
        Some(f) => {
            out.append("\n  found: '");
            let e = escape_string(f.as_dangerous());
            out.append(e.as_str());
            out.append("'");
        },
        None => {},
    }
    proof {
        assert(out@ =~= head + value_line("\n  found: '"@, view_opt(found)));
    }
    let ghost head2 = out@;
    match expected {
        Some(f) => {
            out.append("\n  expected: '");
            let e = escape_string(f.as_dangerous());
            out.append(e.as_str());
            out.append("'");
        },
        None => {},
    }
    proof {
        assert(out@ =~= head2 + value_line("\n  expected: '"@, view_opt(expected)));
    }
    let ghost base = out@;
    out.append("\n  in: ");
    out.append(operation);
    proof {
        assert(allops.drop_first() =~= context_ops@.map_values(|s: &'static str| s@));
        assert(context_lines(allops) == "\n  in: "@ + allops[0] + context_lines(
            allops.drop_first(),
        ));
        assert(allops.drop_first() =~= allops.skip(1));
        assert(out@ + context_lines(allops.skip(1)) =~= base + context_lines(allops));
    }
    let mut j: usize = 0;
    while j < context_ops.len()
        invariant
            0 <= j <= context_ops@.len(),
            allops == seq![operation@] + context_ops@.map_values(|s: &'static str| s@),
            allops.len() == 1 + context_ops@.len(),
            out@ + context_lines(allops.skip(j as int + 1)) == base + context_lines(allops),
        decreases context_ops@.len() - j,
    {
        let ghost pre = out@;
        out.append("\n  in: ");
        let op: &'static str = context_ops[j];
        out.append(op);
        proof {
            assert(allops[j as int + 1] == op@);
            assert(context_lines(allops.skip(j as int + 1)) == "\n  in: "@ + allops[j as int + 1]
                + context_lines(allops.skip(j as int + 1).drop_first()));
            assert(allops.skip(j as int + 1).drop_first() =~= allops.skip(j as int + 2));
            assert(out@ + context_lines(allops.skip(j as int + 2)) =~= pre + context_lines(
                allops.skip(j as int + 1),
            ));
        }
        j += 1;
    }
    proof {
        assert(allops.skip(allops.len() as int) =~= Seq::empty());
        assert(out@ =~= out@ + context_lines(allops.skip(allops.len() as int)));
        assert(out@ =~= base + context_lines(allops));
        assert(out@ =~= render_spec(
            desc@,
            rel_offset as int,
            span_len as int,
            view_opt(found),
            view_opt(expected),
            allops,
        ));
    }
    out
}

} // verus!
