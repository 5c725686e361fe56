//! A dump of bytes in hexadecimal, sixteen to a line.

use crate::text::push_char;
use vstd::prelude::*;

verus! {

/// Number of bytes on one line of a dump.
pub const LINE_BYTES: usize = 16;

/// The character of a hexadecimal digit, in lower case.
pub open spec fn spec_hex_digit(d: nat) -> char {
    if d == 0 {
        '0'
    } else if d == 1 {
        '1'
    } else if d == 2 {
        '2'
    } else if d == 3 {
        '3'
    } else if d == 4 {
        '4'
    } else if d == 5 {
        '5'
    } else if d == 6 {
        '6'
    } else if d == 7 {
        '7'
    } else if d == 8 {
        '8'
    } else if d == 9 {
        '9'
    } else if d == 10 {
        'a'
    } else if d == 11 {
        'b'
    } else if d == 12 {
        'c'
    } else if d == 13 {
        'd'
    } else if d == 14 {
        'e'
    } else {
        'f'
    }
}

/// A number in hexadecimal, without leading zeros.
pub open spec fn spec_hex(n: nat) -> Seq<char>
    decreases n,
{
    if n < 16 {
        seq![spec_hex_digit(n)]
    } else {
        spec_hex(n / 16).push(spec_hex_digit(n % 16))
    }
}

/// A number in hexadecimal, with zeros in front up to four digits.
pub open spec fn spec_hex4(n: nat) -> Seq<char> {
    (if n < 0x1000 {
        seq!['0']
    } else {
        Seq::<char>::empty()
    }) + (if n < 0x100 {
        seq!['0']
    } else {
        Seq::<char>::empty()
    }) + (if n < 0x10 {
        seq!['0']
    } else {
        Seq::<char>::empty()
    }) + spec_hex(n)
}

/// The bytes of a chunk in hexadecimal, two digits and a space each.
pub open spec fn spec_hex_cells(chunk: Seq<u8>) -> Seq<char>
    decreases chunk.len(),
{
    if chunk.len() == 0 {
        Seq::<char>::empty()
    } else {
        spec_hex_cells(chunk.drop_last()) + seq![
            spec_hex_digit((chunk.last() / 16) as nat),
            spec_hex_digit((chunk.last() % 16) as nat),
            ' ',
        ]
    }
}

/// The character that shows a byte: the byte itself where it is a printable
/// ASCII character or a space, else a dot.
pub open spec fn spec_ascii_cell(b: u8) -> char {
    if 0x20 <= b <= 0x7E {
        b as char
    } else {
        '.'
    }
}

/// The characters that show the bytes of a chunk.
pub open spec fn spec_ascii_cells(chunk: Seq<u8>) -> Seq<char> {
    Seq::new(chunk.len(), |i: int| spec_ascii_cell(chunk[i]))
}

/// The end of the chunk that starts at `n`.
pub open spec fn spec_chunk_end(len: int, n: int) -> int {
    if len - n < 16 {
        len
    } else {
        n + 16
    }
}

/// One line of a dump: the offset, a colon and a space, the bytes in
/// hexadecimal, two spaces, the bytes as characters, and a line feed.
pub open spec fn spec_line(data: Seq<u8>, n: int) -> Seq<char> {
    let chunk = data.subrange(n, spec_chunk_end(data.len() as int, n));
    spec_hex4(n as nat) + seq![':', ' '] + spec_hex_cells(chunk) + seq![' ', ' ']
        + spec_ascii_cells(chunk) + seq!['\n']
}

/// The lines of a dump from offset `n` on.
pub open spec fn spec_hexdump_from(data: Seq<u8>, n: int) -> Seq<char>
    decreases data.len() + 16 - n,
{
    if n < 0 || n >= data.len() {
        Seq::<char>::empty()
    } else {
        spec_line(data, n) + spec_hexdump_from(data, n + 16)
    }
}

/// The dump of some bytes.
pub open spec fn spec_hexdump(data: Seq<u8>) -> Seq<char> {
    spec_hexdump_from(data, 0)
}

fn hex_digit(d: u8) -> (r: char)
    requires
        d < 16,
    ensures
        r == spec_hex_digit(d as nat),
{
    if d == 0 {
        '0'
    } else if d == 1 {
        '1'
    } else if d == 2 {
        '2'
    } else if d == 3 {
        '3'
    } else if d == 4 {
        '4'
    } else if d == 5 {
        '5'
    } else if d == 6 {
        '6'
    } else if d == 7 {
        '7'
    } else if d == 8 {
        '8'
    } else if d == 9 {
        '9'
    } else if d == 10 {
        'a'
    } else if d == 11 {
        'b'
    } else if d == 12 {
        'c'
    } else if d == 13 {
        'd'
    } else if d == 14 {
        'e'
    } else {
        'f'
    }
}

fn push_hex(out: &mut String, n: usize)
    ensures
        final(out)@ == old(out)@ + spec_hex(n as nat),
    decreases n,
{
    if n < 16 {
        push_char(out, hex_digit(n as u8));
        assert(out@ =~= old(out)@ + spec_hex(n as nat));
    } else {
        push_hex(out, n / 16);
        push_char(out, hex_digit((n % 16) as u8));
        assert(out@ =~= old(out)@ + spec_hex(n as nat));
    }
}

fn push_hex4(out: &mut String, n: usize)
    ensures
        final(out)@ == old(out)@ + spec_hex4(n as nat),
{
    if n < 0x1000 {
        push_char(out, '0');
    }
    if n < 0x100 {
        push_char(out, '0');
    }
    if n < 0x10 {
        push_char(out, '0');
    }
    push_hex(out, n);
    assert(out@ =~= old(out)@ + spec_hex4(n as nat));
}

/// Dumps bytes in hexadecimal: one line for every sixteen bytes, with the
/// offset of the line, the bytes in hexadecimal, and the bytes as
/// characters.
pub fn hexdump(data: &[u8]) -> (r: String)
    ensures
        r@ == spec_hexdump(data@),
{
    let mut n: usize = 0;
    let len = data.len();
    let mut s = String::new();
    while n < len
        invariant
            n <= len,
            len == data@.len(),
            s@ + spec_hexdump_from(data@, n as int) == spec_hexdump(data@),
        decreases len - n,
    {
        let ghost before = s@;
        let end: usize = if len - n < LINE_BYTES {
            len
        } else {
            n + LINE_BYTES
        };
        let ghost chunk = data@.subrange(n as int, end as int);
        push_hex4(&mut s, n);
        push_char(&mut s, ':');
        push_char(&mut s, ' ');
        let ghost head = s@;
        let mut i: usize = n;
        while i < end
            invariant
                n <= i <= end <= len,
                len == data@.len(),
                chunk == data@.subrange(n as int, end as int),
                s@ == head + spec_hex_cells(chunk.take(i - n)),
            decreases end - i,
        {
            let b = data[i];
            push_char(&mut s, hex_digit(b / 16));
            push_char(&mut s, hex_digit(b % 16));
            push_char(&mut s, ' ');
            i = i + 1;
            proof {
                assert(chunk.take(i - n).drop_last() =~= chunk.take(i - n - 1));
                assert(chunk.take(i - n).last() == b);
                assert(s@ =~= head + spec_hex_cells(chunk.take(i - n)));
            }
        }
        assert(chunk.take(end - n) =~= chunk);
        push_char(&mut s, ' ');
        push_char(&mut s, ' ');
        let ghost mid = s@;
        let mut i: usize = n;
        while i < end
            invariant
                n <= i <= end <= len,
                len == data@.len(),
                chunk == data@.subrange(n as int, end as int),
                s@ == mid + spec_ascii_cells(chunk).take(i - n),
            decreases end - i,
        {
            let b = data[i];
            if b >= 0x20 && b <= 0x7E {
                push_char(&mut s, b as char);
            } else {
                push_char(&mut s, '.');
            }
            i = i + 1;
            assert(s@ =~= mid + spec_ascii_cells(chunk).take(i - n));
        }
        assert(spec_ascii_cells(chunk).take(end - n) =~= spec_ascii_cells(chunk));
        push_char(&mut s, '\n');
        assert(s@ =~= before + spec_line(data@, n as int));
        assert(before + spec_line(data@, n as int) + spec_hexdump_from(data@, end as int) =~= before
            + (spec_line(data@, n as int) + spec_hexdump_from(data@, n as int + 16)))
            by {
            if end != n + LINE_BYTES {
                assert(spec_hexdump_from(data@, end as int) =~= Seq::<char>::empty());
                assert(spec_hexdump_from(data@, n as int + 16) =~= Seq::<
                    char,
                >::empty());
            }
        }
        n = end;
    }
    assert(spec_hexdump_from(data@, n as int) =~= Seq::<char>::empty());
    assert(s@ =~= s@ + Seq::<char>::empty());
    s
}

} // verus!
