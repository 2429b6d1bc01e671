//! CPIO is a format for file archives. There are three variants of the CPIO format: Binary CPIO,
//! portable ASCII CPIO, and new ASCII CPIO. This parser reads binary CPIO.
use vstd::prelude::*;
use vstd::slice::slice_subrange;
use vstd::utf8::valid_utf8;
use vstd::string::StringSliceAdditionalSpecFns;

verus! {

/// Size of a raw CPIO entry header in bytes
pub const RAW_ENTRY_SIZE: usize = 26;

/// The path of the entry that ends an archive, as bytes.
pub open spec fn trailer() -> Seq<u8> {
    seq![84u8, 82u8, 65u8, 73u8, 76u8, 69u8, 82u8, 33u8, 33u8, 33u8]
}

/// The size of the path, NUL included, that a header announces (little endian).
pub open spec fn header_path_size(header: Seq<u8>) -> nat {
    (header[20] as nat) + (header[21] as nat) * 256
}

/// The size of the data that a header announces: binary CPIO stores the two 16-bit halves of
/// this 32-bit number most significant half first, each half little endian.
pub open spec fn header_data_size(header: Seq<u8>) -> nat {
    (header[24] as nat) + (header[25] as nat) * 256 + (header[22] as nat) * 65536
        + (header[23] as nat) * 16777216
}

/// Take the next `n` bytes of `rest` and skip `n % pad` bytes of padding after them (as many as
/// are left). Nothing is taken unless at least `n` bytes are left.
pub open spec fn take_padded(rest: Seq<u8>, n: nat, pad: nat) -> Option<(Seq<u8>, Seq<u8>)> {
    if rest.len() >= n {
        let skipped = if n % pad <= rest.len() - n { n % pad } else { (rest.len() - n) as nat };
        Some((rest.take(n as int), rest.skip((n + skipped) as int)))
    } else {
        None
    }
}

/// Reading one entry from `rest`: the path bytes (without the NUL) and the data of the entry if
/// there is one, and the bytes that are left.
pub open spec fn next_entry(rest: Seq<u8>) -> (Option<(Seq<u8>, Seq<u8>)>, Seq<u8>) {
    if rest.len() < RAW_ENTRY_SIZE {
        (None, Seq::empty())
    } else {
        let header = rest.take(RAW_ENTRY_SIZE as int);
        let after_header = rest.skip(RAW_ENTRY_SIZE as int);
        match take_padded(after_header, header_path_size(header), 2) {
            None => (None, after_header),
            Some((path_bytes, after_path)) => {
                let path = path_bytes.drop_last();
                if path_bytes.len() == 0 || !valid_utf8(path) || path == trailer() {
                    (None, after_path)
                } else {
                    match take_padded(after_path, header_data_size(header), 2) {
                        None => (None, after_path),
                        Some((data, after_data)) => (Some((path, data)), after_data),
                    }
                }
            },
        }
    }
}

/// Every entry of an archive, in order, up to the first that cannot be read.
pub open spec fn archive_entries(rest: Seq<u8>) -> Seq<(Seq<u8>, Seq<u8>)>
    decreases rest.len(),
{
    match next_entry(rest).0 {
        None => Seq::empty(),
        Some(entry) => if next_entry(rest).1.len() < rest.len() {
            seq![entry] + archive_entries(next_entry(rest).1)
        } else {
            Seq::empty()
        },
    }
}

/// Reading an entry always consumes bytes.
pub proof fn lemma_next_entry_shrinks(rest: Seq<u8>)
    requires
        next_entry(rest).0 is Some,
    ensures
        next_entry(rest).1.len() < rest.len(),
{
}

/// An entry holds exactly the number of data bytes its header announces: binary CPIO stores
/// the 32-bit data size in header bytes 22..26 as two little endian 16-bit halves, the high
/// half first. The data follows the path (bytes 20..22 give its size, NUL included), both padded
/// to an even length, and reading resumes after the padded data.
pub proof fn lemma_entry_data(rest: Seq<u8>)
    requires
        next_entry(rest).0 is Some,
    ensures
        ({
            let p = rest[20] as int + rest[21] as int * 0x100;
            let n = rest[24] as int + rest[25] as int * 0x100 + (rest[22] as int + rest[23] as int * 0x100)
                * 0x1_0000;
            let data = next_entry(rest).0->Some_0.1;
            let start = RAW_ENTRY_SIZE + p + p % 2;
            &&& data.len() == n
            &&& start <= rest.len() ==> data == rest.subrange(start, start + n)
            &&& start + n + n % 2 <= rest.len() ==> next_entry(rest).1 == rest.skip(start + n + n % 2)
        }),
{
    let header = rest.take(RAW_ENTRY_SIZE as int);
    let after_header = rest.skip(RAW_ENTRY_SIZE as int);
    let p = header_path_size(header);
    let after_path = take_padded(after_header, p, 2)->Some_0.1;
    let start = RAW_ENTRY_SIZE + p + p % 2;
    if start <= rest.len() {
        assert(after_path =~= rest.skip(start));
        let n = header_data_size(header) as int;
        assert(rest.skip(start).take(n) =~= rest.subrange(start, start + n));
        if start + n + n % 2 <= rest.len() {
            assert(rest.skip(start).skip(n + n % 2) =~= rest.skip(start + n + n % 2));
        }
    }
}

/// Converts a slice of bytes to a string slice with `core::str::from_utf8`.
///
/// The standard library documents that the conversion succeeds exactly on well-formed UTF-8,
/// and that the string then holds those bytes; the contract states this with vstd's UTF-8
/// model.
#[verifier::external_body]
fn str_from_utf8<'a>(bytes: &'a [u8]) -> (s: Option<&'a str>)
    ensures
        s is Some <==> valid_utf8(bytes@),
        s is Some ==> s->0.spec_bytes() == bytes@,
{
    core::str::from_utf8(bytes).ok()
}

/// A CPIO entry. The CPIO entry is stripped of all unused values
#[derive(Debug, Clone, Copy)]
pub struct CpioEntry<'a> {
    pub path: &'a str,
    pub data: &'a [u8],
}

/// Parser of the Binary CPIO format
pub struct CpioParser<'a> {
    bytes: &'a [u8],
}

impl<'a> View for CpioParser<'a> {
    type V = Seq<u8>;

    /// The bytes that are left to parse.
    closed spec fn view(&self) -> Seq<u8> {
        self.bytes@
    }
}

impl<'a> CpioParser<'a> {
    /// Create a new CPIO parser
    pub fn new(bytes: &'a [u8]) -> (parser: CpioParser<'a>)
        ensures
            parser@ == bytes@,
    {
        CpioParser { bytes }
    }

    /// Return the next n bytes and skip (n % pad) padding bytes after them
    fn next_bytes(&mut self, n: usize, pad: usize) -> (bytes: Option<&'a [u8]>)
        requires
            pad > 0,
        ensures
            match take_padded(old(self)@, n as nat, pad as nat) {
                Some((taken, rest)) => bytes is Some && bytes->0@ == taken && final(self)@ == rest,
                None => bytes is None && final(self)@ == old(self)@,
            },
    {
        let slice = self.bytes;
        if slice.len() >= n {
            let bytes = slice_subrange(slice, 0, n);
            let left = slice.len() - n;
            let skip = if n % pad <= left { n % pad } else { left };
            self.bytes = slice_subrange(slice, n + skip, slice.len());
            Some(bytes)
        } else {
            None
        }
    }

    /// Read the next entry of the archive. `None` where the archive ends: at the trailer entry,
    /// or where the bytes left do not hold a whole entry, its path is empty or is not UTF-8.
    pub fn next(&mut self) -> (entry: Option<CpioEntry<'a>>)
        ensures
            final(self)@ == next_entry(old(self)@).1,
            match next_entry(old(self)@).0 {
                Some((path, data)) => entry is Some && entry->0.path.spec_bytes() == path
                    && entry->0.data@ == data,
                None => entry is None,
            },
    {
        let rest = self.bytes;
        if rest.len() < RAW_ENTRY_SIZE {
            self.bytes = slice_subrange(rest, rest.len(), rest.len());
            return None;
        }
        let header = slice_subrange(rest, 0, RAW_ENTRY_SIZE);
        self.bytes = slice_subrange(rest, RAW_ENTRY_SIZE, rest.len());
        let path_size = (header[20] as usize) + (header[21] as usize) * 256;
        let data_size = (header[24] as usize) + (header[25] as usize) * 256 + (header[22] as usize)
            * 65536 + (header[23] as usize) * 16777216;
        let path_bytes = match self.next_bytes(path_size, 2) {
            Some(bytes) => bytes,
            None => return None,
        };
        if path_bytes.len() == 0 {
            return None;
        }
        let path_only = slice_subrange(path_bytes, 0, path_bytes.len() - 1);
        let path = match str_from_utf8(path_only) {
            Some(path) => path,
            None => return None,
        };
        if is_trailer(path_only) {
            return None;
        }
        let data = match self.next_bytes(data_size, 2) {
            Some(data) => data,
            None => return None,
        };
        Some(CpioEntry { path, data })
    }
}

/// Whether `bytes` is the path of the trailer entry.
fn is_trailer(bytes: &[u8]) -> (trailer_path: bool)
    ensures
        trailer_path == (bytes@ == trailer()),
{
    if bytes.len() != 10 {
        return false;
    }
    let equal = bytes[0] == 84u8 && bytes[1] == 82u8 && bytes[2] == 65u8 && bytes[3] == 73u8
        && bytes[4] == 76u8 && bytes[5] == 69u8 && bytes[6] == 82u8 && bytes[7] == 33u8
        && bytes[8] == 33u8 && bytes[9] == 33u8;
    proof {
        if equal {
            assert(bytes@ =~= trailer());
        } else {
            assert(bytes@ != trailer()) by {}
        }
    }
    equal
}

} // verus!
