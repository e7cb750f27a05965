//! Byte-addressable memory: the contract the CPU relies on, and a flat map
//! that meets it.
use vstd::prelude::*;
use vstd::slice::slice_subrange;

use crate::text::{joined, push_upper_hex_byte, push_upper_hex_word, upper_hex_byte, upper_hex_word};

verus! {

/// The 16-bit word whose low byte is `lo` and whose high byte is `hi`.
pub open spec fn word(lo: u8, hi: u8) -> u16 {
    (lo as int + 256 * (hi as int)) as u16
}

/// The low byte of a word.
pub open spec fn low_byte(value: u16) -> u8 {
    (value % 256) as u8
}

/// The high byte of a word.
pub open spec fn high_byte(value: u16) -> u8 {
    (value / 256) as u8
}

/// `cells` with `data` copied over the cells from `addr` on.
pub open spec fn loaded(cells: Seq<u8>, addr: int, data: Seq<u8>) -> Seq<u8> {
    Seq::new(
        cells.len(),
        |i: int|
            if addr <= i < addr + data.len() {
                data[i - addr]
            } else {
                cells[i]
            },
    )
}

/// The two bytes of a word put together again give the word.
pub proof fn lemma_word_of_bytes(value: u16)
    ensures
        word(low_byte(value), high_byte(value)) == value,
{
}

/// A word made of two bytes splits into those bytes.
pub proof fn lemma_bytes_of_word(lo: u8, hi: u8)
    ensures
        low_byte(word(lo, hi)) == lo,
        high_byte(word(lo, hi)) == hi,
{
}

/// Puts two bytes together into a little-endian word.
pub fn make_word(lo: u8, hi: u8) -> (r: u16)
    ensures
        r == word(lo, hi),
{
    lo as u16 + (hi as u16) * 256
}

/// Splits a word into its low and its high byte.
pub fn split_word(value: u16) -> (r: (u8, u8))
    ensures
        r.0 == low_byte(value),
        r.1 == high_byte(value),
{
    ((value % 256) as u8, (value / 256) as u8)
}

/// A memory of byte cells, addressed from zero. Its model is the sequence of
/// its cells. A 16-bit value lies in two neighbouring cells, low byte first;
/// the neighbour of the last 16-bit address is address zero.
pub trait MemoryMap: View<V = Seq<u8>> {
    /// The byte at `addr`.
    fn read_u8(&self, addr: u16) -> (r: u8)
        requires
            (addr as int) < self@.len(),
        ensures
            r == self@[addr as int],
    ;

    /// Stores `val` at `addr` and changes no other cell.
    fn write_u8(&mut self, addr: u16, val: u8)
        requires
            (addr as int) < old(self)@.len(),
        ensures
            final(self)@ == old(self)@.update(addr as int, val),
    ;

    /// Copies `data` into the cells from `addr` on and changes no other cell.
    fn load(&mut self, addr: u16, data: &[u8])
        requires
            addr as int + data@.len() <= old(self)@.len(),
        ensures
            final(self)@ == loaded(old(self)@, addr as int, data@),
    ;

    /// The little-endian word at `addr`.
    fn read_u16(&self, addr: u16) -> (r: u16)
        requires
            (addr as int) < self@.len(),
            (addr.wrapping_add(1) as int) < self@.len(),
        ensures
            r == word(self@[addr as int], self@[addr.wrapping_add(1) as int]),
    {
        let lo = self.read_u8(addr);
        let hi = self.read_u8(addr.wrapping_add(1));
        make_word(lo, hi)
    }

    /// Stores `val` at `addr`, low byte first, and changes no other cell.
    fn write_u16(&mut self, addr: u16, val: u16)
        requires
            (addr as int) < old(self)@.len(),
            (addr.wrapping_add(1) as int) < old(self)@.len(),
        ensures
            final(self)@ == old(self)@.update(addr as int, low_byte(val)).update(
                addr.wrapping_add(1) as int,
                high_byte(val),
            ),
    {
        let (lo, hi) = split_word(val);
        self.write_u8(addr, lo);
        self.write_u8(addr.wrapping_add(1), hi);
    }
}

/// A memory map that is one flat array of `S` cells, with no mirrored or
/// shared regions.
pub struct SimpleMap<const S: usize>(pub [u8; S]);

impl<const S: usize> View for SimpleMap<S> {
    type V = Seq<u8>;

    open spec fn view(&self) -> Seq<u8> {
        self.0@
    }
}

impl<const S: usize> Default for SimpleMap<S> {
    /// A map whose cells are all zero.
    fn default() -> (r: SimpleMap<S>)
        ensures
            r@ == Seq::new(S as nat, |i: int| 0u8),
    {
        let map = SimpleMap([0u8;S]);
        assert(map@ =~= Seq::new(S as nat, |i: int| 0u8));
        map
    }
}

impl<const S: usize> MemoryMap for SimpleMap<S> {
    fn read_u8(&self, addr: u16) -> (r: u8) {
        let addr = addr as usize;
        self.0[addr]
    }

    fn write_u8(&mut self, addr: u16, val: u8) {
        let addr = addr as usize;
        self.0[addr] = val;
    }

    fn load(&mut self, addr: u16, data: &[u8]) {
        let addr = addr as usize;
        let mut i: usize = 0;
        while i < data.len()
            invariant
                i <= data@.len(),
                addr + data@.len() <= S,
                self@.len() == S,
                forall|k: int|
                    0 <= k < S ==> self@[k] == if addr <= k < addr + i {
                        data@[k - addr]
                    } else {
                        old(self)@[k]
                    },
            decreases data@.len() - i,
        {
            self.0[addr + i] = data[i];
            i += 1;
        }
        assert(self@ =~= loaded(old(self)@, addr as int, data@));
    }
}

/// The character that stands for a byte in the text column of a dump: the
/// byte's own character where it is printable ASCII, a dot elsewhere.
pub open spec fn ascii_cell(byte: u8) -> char {
    if 0x20 <= byte <= 0x7E {
        byte as char
    } else {
        '.'
    }
}

/// The text column of a dump line.
pub open spec fn ascii_body(data: Seq<u8>) -> Seq<char> {
    Seq::new(data.len(), |i: int| ascii_cell(data[i]))
}

/// The byte at index `i` of a dump line: two hexadecimal digits in upper
/// case, and after the fourth, the eighth and the twelfth byte a space that
/// sets the groups of four apart.
pub open spec fn hex_cell(i: int, byte: u8) -> Seq<char> {
    if i == 3 || i == 7 || i == 11 {
        upper_hex_byte(byte) + seq![' ']
    } else {
        upper_hex_byte(byte)
    }
}

/// The bytes of a dump line, each as `hex_cell` writes it.
pub open spec fn hex_cells(data: Seq<u8>) -> Seq<Seq<char>> {
    Seq::new(data.len(), |i: int| hex_cell(i, data[i]))
}

/// The hexadecimal column of a dump line: the bytes with a space between
/// each two.
pub open spec fn hex_body(data: Seq<u8>) -> Seq<char> {
    joined(hex_cells(data), seq![' '])
}

/// `text` filled up with spaces on the right to at least `width` characters.
pub open spec fn padded(text: Seq<char>, width: nat) -> Seq<char> {
    if text.len() >= width {
        text
    } else {
        text + Seq::new((width - text.len()) as nat, |i: int| ' ')
    }
}

/// One line of a dump. With a line number the line starts with that number
/// in four hexadecimal digits and its text column is at least 16 wide;
/// without one it starts with five spaces.
pub open spec fn hexdump_line(line_no: Option<u16>, data: Seq<u8>) -> Seq<char> {
    match line_no {
        Some(no) => upper_hex_word(no) + seq![' ', '|', ' '] + hex_body(data) + seq![
            ' ',
            '|',
            ' ',
        ] + padded(ascii_body(data), 16) + seq![' ', '|'],
        None => seq![' ', ' ', ' ', ' ', ' ', '|', ' '] + hex_body(data) + seq![' ', '|', ' ']
            + ascii_body(data) + seq![' ', '|'],
    }
}

/// The heading of a dump: the line without a number for the bytes 0 to 15.
pub open spec fn dump_header() -> Seq<char> {
    hexdump_line(None, Seq::new(16, |i: int| i as u8))
}

/// The chunk of `cells` that line `line` of a dump shows: sixteen cells, or
/// in the last line what is left.
pub open spec fn dump_chunk(cells: Seq<u8>, line: int) -> Seq<u8> {
    cells.subrange(
        16 * line,
        if 16 * line + 16 <= cells.len() {
            16 * line + 16
        } else {
            cells.len() as int
        },
    )
}

/// The lines of a dump of `cells`, each numbered with the address of its
/// first cell.
pub open spec fn dump_lines(cells: Seq<u8>) -> Seq<Seq<char>> {
    Seq::new(
        ((cells.len() + 15) / 16) as nat,
        |line: int| hexdump_line(Some((16 * line) as u16), dump_chunk(cells, line)),
    )
}

/// The dump of `cells`: after a line feed the heading, a rule of dashes as
/// long as the heading, and the numbered lines.
pub open spec fn dump_text(cells: Seq<u8>) -> Seq<char> {
    seq!['\n'] + dump_header() + seq!['\n'] + Seq::new(dump_header().len(), |i: int| '-') + seq![
        '\n',
    ] + joined(dump_lines(cells), seq!['\n'])
}

/// Formats up to 16 bytes into a readable line of a dump.
pub fn fmt_hexdump_line(line_no: Option<u16>, data: &[u8]) -> (line: String)
    ensures
        line@ == hexdump_line(line_no, data@),
{
    let mut out = String::new();
    match line_no {
        Some(no) => {
            push_upper_hex_word(&mut out, no);
        },
        None => {
            out.push(' ');
            out.push(' ');
            out.push(' ');
            out.push(' ');
        },
    }
    out.push(' ');
    out.push('|');
    out.push(' ');
    let ghost head = out@;
    assert(head =~= match line_no {
        Some(no) => upper_hex_word(no) + seq![' ', '|', ' '],
        None => seq![' ', ' ', ' ', ' ', ' ', '|', ' '],
    });

    let mut i: usize = 0;
    while i < data.len()
        invariant
            i <= data@.len(),
            out@ == head + hex_body(data@.take(i as int)),
        decreases data@.len() - i,
    {
        let ghost before = out@;
        if i > 0 {
            out.push(' ');
        }
        push_upper_hex_byte(&mut out, data[i]);
        if i == 3 || i == 7 || i == 11 {
            out.push(' ');
        }
        proof {
            let done = hex_cells(data@.take(i as int));
            let next = hex_cells(data@.take(i as int + 1));
            assert(next.drop_last() =~= done);
            assert(next.last() == hex_cell(i as int, data@[i as int]));
            if i > 0 {
                assert(out@ =~= before + seq![' '] + hex_cell(i as int, data@[i as int]));
            } else {
                assert(out@ =~= before + hex_cell(i as int, data@[i as int]));
            }
        }
        i += 1;
    }
    assert(data@.take(i as int) =~= data@);

    out.push(' ');
    out.push('|');
    out.push(' ');
    let ghost middle = out@;
    assert(middle =~= head + hex_body(data@) + seq![' ', '|', ' ']);

    let mut k: usize = 0;
    while k < data.len()
        invariant
            k <= data@.len(),
            out@ == middle + ascii_body(data@.take(k as int)),
        decreases data@.len() - k,
    {
        let byte = data[k];
        let ghost before = out@;
        if 0x20 <= byte && byte <= 0x7E {
            out.push(byte as char);
        } else {
            out.push('.');
        }
        assert(out@ =~= middle + ascii_body(data@.take(k as int + 1)));
        k += 1;
    }
    assert(data@.take(k as int) =~= data@);

    if line_no.is_some() {
        let mut width: usize = data.len();
        while width < 16
            invariant
                data@.len() <= width,
                width <= 16 || width == data@.len(),
                out@ == middle + ascii_body(data@) + Seq::new(
                    (width - data@.len()) as nat,
                    |i: int| ' ',
                ),
            decreases 16 - width,
        {
            out.push(' ');
            width += 1;
            assert(out@ =~= middle + ascii_body(data@) + Seq::new(
                (width - data@.len()) as nat,
                |i: int| ' ',
            ));
        }
        assert(out@ =~= middle + padded(ascii_body(data@), 16));
    }
    out.push(' ');
    out.push('|');
    assert(out@ =~= hexdump_line(line_no, data@));
    out
}

impl<const S: usize> SimpleMap<S> {
    /// The whole map as a dump: a heading, a rule, and a line for every
    /// sixteen cells.
    pub fn dump(&self) -> (text: String)
        requires
            S <= 0x10000,
        ensures
            text@ == dump_text(self@),
    {
        let numbers: [u8; 16] = [0, 1, 2, 3, 4, 5, 6, 7, 8, 9, 10, 11, 12, 13, 14, 15];
        assert(numbers@ =~= Seq::new(16, |i: int| i as u8));
        let header = fmt_hexdump_line(None, numbers.as_slice());

        let mut out = String::new();
        out.push('\n');
        out.append(header.as_str());
        out.push('\n');
        let ghost top = out@;
        let width = header.as_str().unicode_len();
        let mut d: usize = 0;
        while d < width
            invariant
                d <= width,
                out@ == top + Seq::new(d as nat, |i: int| '-'),
            decreases width - d,
        {
            out.push('-');
            d += 1;
            assert(out@ =~= top + Seq::new(d as nat, |i: int| '-'));
        }
        out.push('\n');
        let ghost head = out@;
        assert(head =~= seq!['\n'] + dump_header() + seq!['\n'] + Seq::new(
            dump_header().len(),
            |i: int| '-',
        ) + seq!['\n']);

        let cells = self.0.as_slice();
        let count = (S + 15) / 16;
        let mut line: usize = 0;
        while line < count
            invariant
                S <= 0x10000,
                cells@ == self@,
                self@.len() == S,
                count == (S + 15) / 16,
                line <= count,
                out@ == head + joined(dump_lines(self@).take(line as int), seq!['\n']),
            decreases count - line,
        {
            let ghost before = out@;
            let start = 16 * line;
            let end = if start + 16 <= S {
                start + 16
            } else {
                S
            };
            let text = fmt_hexdump_line(Some(start as u16), slice_subrange(cells, start, end));
            if line > 0 {
                out.push('\n');
            }
            out.append(text.as_str());
            proof {
                let done = dump_lines(self@).take(line as int);
                let next = dump_lines(self@).take(line as int + 1);
                assert(next.drop_last() =~= done);
                assert(next.last() == text@);
                if line > 0 {
                    assert(out@ =~= before + seq!['\n'] + text@);
                } else {
                    assert(out@ =~= before + text@);
                }
            }
            line += 1;
        }
        assert(dump_lines(self@).take(line as int) =~= dump_lines(self@));
        out
    }
}

} // verus!
