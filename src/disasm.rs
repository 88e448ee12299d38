use crate::instructions::{decode, Instruction};
use crate::memory::{word, PROGRAM_START};
use vstd::prelude::*;

verus! {

/// Bytes shown on one hexdump row.
pub const HEXDUMP_WIDTH: usize = 16;

/// What to list of a program image.
pub struct DisassemblerArgs {
    /// Path of the program image.
    pub file: String,
    /// List a hexdump instead of the decoded instructions.
    pub hexdump: bool,
}

/// One hexdump row: the offset of its first byte and up to 16 bytes.
pub struct HexRow {
    pub offset: usize,
    pub bytes: Vec<u8>,
}

/// A listing of a program image.
pub enum Listing {
    /// The bytes, 16 to a row.
    Hexdump(Vec<HexRow>),
    /// Each big-endian word with the address it is loaded at and the
    /// instruction it decodes to.
    Disassembly(Vec<(usize, Instruction)>),
}

/// Number of hexdump rows for `len` bytes.
pub open spec fn row_count(len: int) -> int {
    (len + 15) / 16
}

/// The bytes of hexdump row `k`.
pub open spec fn row_bytes(contents: Seq<u8>, k: int) -> Seq<u8> {
    contents.subrange(16 * k, if 16 * k + 16 <= contents.len() { 16 * k + 16 } else { contents.len() as int })
}

/// Whether `rows` are the hexdump rows of `contents`: row `k` starts at
/// offset `16 * k` and holds the next 16 bytes, or fewer at the end.
pub open spec fn is_hexdump_of(rows: Seq<HexRow>, contents: Seq<u8>) -> bool {
    &&& rows.len() == row_count(contents.len() as int)
    &&& forall|k: int|
        0 <= k < rows.len() ==> #[trigger] rows[k].offset == 16 * k && rows[k].bytes@ == row_bytes(
            contents,
            k,
        )
}

/// Whether `lines` list each big-endian word of `contents` with its load
/// address and decoded instruction.
pub open spec fn is_disassembly_of(lines: Seq<(usize, Instruction)>, contents: Seq<u8>) -> bool {
    &&& lines.len() == contents.len() / 2
    &&& forall|k: int|
        0 <= k < lines.len() ==> #[trigger] lines[k] == (
            (PROGRAM_START + 2 * k) as usize,
            decode(word(contents[2 * k], contents[2 * k + 1])),
        )
}

/// Splits a program image into hexdump rows.
pub fn hexdump(contents: &[u8]) -> (rows: Vec<HexRow>)
    ensures
        is_hexdump_of(rows@, contents@),
{
    let len = contents.len();
    let n = len / HEXDUMP_WIDTH + if len % HEXDUMP_WIDTH != 0 { 1 } else { 0 };
    let mut rows: Vec<HexRow> = Vec::new();
    let mut k: usize = 0;
    while k < n
        invariant
            len == contents@.len(),
            n == row_count(len as int),
            k <= n,
            rows@.len() == k,
            forall|j: int|
                0 <= j < k ==> #[trigger] rows@[j].offset == 16 * j && rows@[j].bytes@ == row_bytes(
                    contents@,
                    j,
                ),
        decreases n - k,
    {
        let start = k * HEXDUMP_WIDTH;
        let end = if len - start >= HEXDUMP_WIDTH {
            start + HEXDUMP_WIDTH
        } else {
            len
        };
        let mut bytes: Vec<u8> = Vec::new();
        let mut j: usize = start;
        while j < end
            invariant
                start <= j <= end <= len,
                len == contents@.len(),
                bytes@ == contents@.subrange(start as int, j as int),
            decreases end - j,
        {
            bytes.push(contents[j]);
            j += 1;
            assert(bytes@ =~= contents@.subrange(start as int, j as int));
        }
        rows.push(HexRow { offset: start, bytes });
        k += 1;
    }
    assert(is_hexdump_of(rows@, contents@));
    rows
}

/// The address each word is loaded at and the instruction it decodes to.
pub fn disassembly(contents: &[u8]) -> (lines: Vec<(usize, Instruction)>)
    requires
        contents@.len() % 2 == 0,
        contents@.len() <= usize::MAX - PROGRAM_START,
    ensures
        is_disassembly_of(lines@, contents@),
{
    let mut lines: Vec<(usize, Instruction)> = Vec::new();
    let mut k: usize = 0;
    while k + 1 < contents.len()
        invariant
            contents@.len() % 2 == 0,
            contents@.len() <= usize::MAX - PROGRAM_START,
            k % 2 == 0,
            k <= contents@.len(),
            lines@.len() == k / 2,
            forall|j: int|
                0 <= j < lines@.len() ==> #[trigger] lines@[j] == (
                    (PROGRAM_START + 2 * j) as usize,
                    decode(word(contents@[2 * j], contents@[2 * j + 1])),
                ),
        decreases contents@.len() - k,
    {
        let hi = contents[k];
        let lo = contents[k + 1];
        let op = ((hi as u16) << 8) | lo as u16;
        assert(op == word(hi, lo)) by (bit_vector)
            requires
                op == ((hi as u16) << 8) | lo as u16,
        ;
        lines.push((PROGRAM_START as usize + k, Instruction::parse(op)));
        k += 2;
    }
    lines
}

/// Lists a program image as `args` asks: a hexdump or the decoded words.
pub fn disassemble(args: &DisassemblerArgs, contents: &[u8]) -> (r: Listing)
    requires
        !args.hexdump ==> contents@.len() % 2 == 0,
        contents@.len() <= usize::MAX - PROGRAM_START,
    ensures
        match r {
            Listing::Hexdump(rows) => args.hexdump && is_hexdump_of(rows@, contents@),
            Listing::Disassembly(lines) => !args.hexdump && is_disassembly_of(lines@, contents@),
        },
{
    if args.hexdump {
        Listing::Hexdump(hexdump(contents))
    } else {
        Listing::Disassembly(disassembly(contents))
    }
}

} // verus!
