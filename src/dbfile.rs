//! A structural check of a SQLite database file: its 100-byte header and
//! the first page, which the file layout makes checkable without an engine.

use vstd::prelude::*;

verus! {

/// Bytes in the file header at the start of the first page.
pub const HEADER_LEN: usize = 100;

/// "SQLite format 3" followed by a zero byte.
pub open spec fn sqlite_magic() -> Seq<u8> {
    seq![0x53u8, 0x51, 0x4c, 0x69, 0x74, 0x65, 0x20, 0x66, 0x6f, 0x72, 0x6d, 0x61, 0x74, 0x20, 0x33, 0x00]
}

pub open spec fn be16(b: Seq<u8>, at: int) -> int {
    b[at] * 256 + b[at + 1]
}

pub open spec fn be32(b: Seq<u8>, at: int) -> int {
    ((b[at] * 256 + b[at + 1]) * 256 + b[at + 2]) * 256 + b[at + 3]
}

/// The page size that the header records; the stored value 1 stands for 65536.
pub open spec fn page_size(b: Seq<u8>) -> int {
    if be16(b, 16) == 1 {
        65536
    } else {
        be16(b, 16)
    }
}

pub open spec fn valid_page_size(size: int) -> bool {
    size == 512 || size == 1024 || size == 2048 || size == 4096 || size == 8192 || size == 16384
        || size == 32768 || size == 65536
}

/// The header is well formed: the magic string, a valid page size, known
/// read and write versions, a usable page of at least 480 bytes, and the
/// fixed payload fractions 64, 32 and 32.
pub open spec fn header_well_formed(b: Seq<u8>) -> bool {
    &&& b.len() >= 100
    &&& b.subrange(0, 16) == sqlite_magic()
    &&& valid_page_size(page_size(b))
    &&& (b[18] == 1 || b[18] == 2)
    &&& (b[19] == 1 || b[19] == 2)
    &&& page_size(b) - b[20] >= 480
    &&& b[21] == 64
    &&& b[22] == 32
    &&& b[23] == 32
}

/// The header's page count is to be believed: it is not zero and the change
/// counter matches the version-valid-for number.
pub open spec fn page_count_recorded(b: Seq<u8>) -> bool {
    be32(b, 28) != 0 && be32(b, 24) == be32(b, 92)
}

/// A well-formed file is consistent: it holds whole pages, at least one,
/// as many as a believable header records, and its first page is the root
/// of a table b-tree (interior 5 or leaf 13).
pub open spec fn pages_consistent(b: Seq<u8>) -> bool {
    &&& (b.len() as int) % page_size(b) == 0
    &&& b.len() >= page_size(b)
    &&& page_count_recorded(b) ==> be32(b, 28) * page_size(b) == b.len()
    &&& (b[100] == 5 || b[100] == 13)
}

/// The verdict of the check on a database file's bytes.
#[derive(Clone, Copy, Debug, PartialEq, Eq, Structural)]
pub enum PageVerdict {
    /// The file passes.
    Sound,
    /// The file is not a database that can be opened: its header is missing
    /// or malformed.
    Malformed,
    /// The header is sound but the file contradicts it.
    Corrupt,
}

pub open spec fn page_verdict(b: Seq<u8>) -> PageVerdict {
    if !header_well_formed(b) {
        PageVerdict::Malformed
    } else if !pages_consistent(b) {
        PageVerdict::Corrupt
    } else {
        PageVerdict::Sound
    }
}

fn has_magic(b: &[u8]) -> (r: bool)
    requires
        b@.len() >= 16,
    ensures
        r == (b@.subrange(0, 16) == sqlite_magic()),
{
    let r = b[0] == 0x53 && b[1] == 0x51 && b[2] == 0x4c && b[3] == 0x69 && b[4] == 0x74 && b[5]
        == 0x65 && b[6] == 0x20 && b[7] == 0x66 && b[8] == 0x6f && b[9] == 0x72 && b[10] == 0x6d
        && b[11] == 0x61 && b[12] == 0x74 && b[13] == 0x20 && b[14] == 0x33 && b[15] == 0x00;
    if r {
        assert(b@.subrange(0, 16) =~= sqlite_magic());
    } else {
        assert(exists|i: int| 0 <= i < 16 && b@[i] != sqlite_magic()[i]);
        assert(b@.subrange(0, 16) != sqlite_magic()) by {
            let i = choose|i: int| 0 <= i < 16 && b@[i] != sqlite_magic()[i];
            assert(b@.subrange(0, 16)[i] != sqlite_magic()[i]);
        }
    }
    r
}

fn read_be16(b: &[u8], at: usize) -> (r: u64)
    requires
        at + 2 <= b@.len(),
    ensures
        r == be16(b@, at as int),
{
    b[at] as u64 * 256 + b[at + 1] as u64
}

fn read_be32(b: &[u8], at: usize) -> (r: u64)
    requires
        at + 4 <= b@.len(),
    ensures
        r == be32(b@, at as int),
{
    ((b[at] as u64 * 256 + b[at + 1] as u64) * 256 + b[at + 2] as u64) * 256 + b[at + 3] as u64
}

/// Checks a database file, given as all of its bytes.
pub fn check_database_page(b: &[u8]) -> (v: PageVerdict)
    ensures
        v == page_verdict(b@),
{
    if b.len() < HEADER_LEN || !has_magic(b) {
        return PageVerdict::Malformed;
    }
    let stored = read_be16(b, 16);
    let size: u64 = if stored == 1 {
        65536
    } else {
        stored
    };
    let size_ok = size == 512 || size == 1024 || size == 2048 || size == 4096 || size == 8192
        || size == 16384 || size == 32768 || size == 65536;
    if !size_ok || !(b[18] == 1 || b[18] == 2) || !(b[19] == 1 || b[19] == 2) || size - (b[20] as u64)
        < 480 || b[21] != 64 || b[22] != 32 || b[23] != 32 {
        return PageVerdict::Malformed;
    }
    let len = b.len() as u64;
    if len % size != 0 || len < size {
        return PageVerdict::Corrupt;
    }
    let count = read_be32(b, 28);
    if count != 0 && read_be32(b, 24) == read_be32(b, 92) {
        assert(count * size <= 0xffff_ffff * 65536) by (nonlinear_arith)
            requires
                count <= 0xffff_ffff,
                size <= 65536,
        ;
        if count * size != len {
            return PageVerdict::Corrupt;
        }
    }
    if !(b[100] == 5 || b[100] == 13) {
        return PageVerdict::Corrupt;
    }
    PageVerdict::Sound
}

} // verus!
