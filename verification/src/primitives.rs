//! Decoders for the fixed-width numeric primitives and the one-byte
//! character placeholder.

use vstd::prelude::*;

use crate::binread::BinRead;
use crate::binread::read_seq;
use crate::endian::Endian;
use crate::error::BinResult;
use crate::error::Error;
use crate::error::IoErrorKind;
use crate::io::Cursor;
use crate::io::StreamView;
use crate::numeric::be_digits;
use crate::numeric::le_digits;
use crate::options::ReadOptions;
use crate::numeric::combine_be;
use crate::numeric::combine_le;

verus! {

/// The number `bytes` denote under the given resolved byte order. Options
/// always carry a resolved order, so the second arm only ever sees
/// `Little`.
pub open spec fn digits_of(endian: Endian, bytes: Seq<u8>) -> nat {
    match endian {
        Endian::Big => be_digits(bytes),
        _ => le_digits(bytes),
    }
}

/// What reading `width` raw bytes as one unsigned number yields: the number
/// the next `width` bytes denote and the position past them, or a short
/// read when the stream is too short.
pub open spec fn prim_read(s: StreamView, endian: Endian, width: nat) -> Result<
    (nat, int),
    Error,
> {
    if 0 <= s.pos && s.pos + width <= s.data.len() {
        Ok((digits_of(endian, s.data.subrange(s.pos, s.pos + width)), s.pos + width))
    } else {
        Err(Error::Io(IoErrorKind::UnexpectedEof))
    }
}

/// Reads `width` bytes and combines them into a number under the byte order
/// of `options`. On a short read, fails and restores the stream position.
fn read_unsigned(reader: &mut Cursor, options: &ReadOptions, width: usize) -> (r: BinResult<u128>)
    requires
        options.wf(),
        1 <= width <= 16,
    ensures
        final(reader)@.data == old(reader)@.data,
        match (prim_read(old(reader)@, options.spec_endian(), width as nat), r) {
            (Ok((n, p)), Ok(v)) => v as nat == n && final(reader)@.pos == p,
            (Err(e), Err(e2)) => e2 == e && final(reader)@.pos == old(reader)@.pos,
            _ => false,
        },
{
    let bytes = match reader.read_bytes(width) {
        Ok(b) => b,
        Err(e) => {
            return Err(e);
        },
    };
    let v = match options.endian() {
        Endian::Big => combine_be(&bytes),
        _ => combine_le(&bytes),
    };
    Ok(v)
}

impl BinRead for u8 {
    type Args = ();

    type Model = u8;

    open spec fn model(self) -> u8 {
        self
    }

    open spec fn spec_read(s: StreamView, endian: Endian, args: ()) -> Result<(u8, int), Error> {
        match prim_read(s, endian, 1) {
            Ok((n, p)) => Ok((n as u8, p)),
            Err(e) => Err(e),
        }
    }

    open spec fn spec_after(m: u8, s: StreamView, endian: Endian, args: ()) -> Result<
        (u8, int),
        Error,
    > {
        Ok((m, s.pos))
    }

    open spec fn restores_on_failure() -> bool {
        true
    }

    fn read_options(reader: &mut Cursor, options: &ReadOptions, args: ()) -> (r: BinResult<u8>) {
        let n = match read_unsigned(reader, options, 1) {
            Ok(n) => n,
            Err(e) => {
                return Err(e);
            },
        };
        Ok(n as u8)
    }

    fn after_parse(self, reader: &mut Cursor, options: &ReadOptions, args: ()) -> (r: BinResult<
        u8,
    >) {
        Ok(self)
    }

}

/// The byte-sequence fast path: reads `count` raw bytes in one bulk
/// operation instead of one decode call per element. Its contract is the
/// element-by-element sequence decode of `u8`, under every byte order, so
/// the two paths yield byte-identical results.
pub fn read_byte_vec(reader: &mut Cursor, count: usize) -> (r: BinResult<Vec<u8>>)
    ensures
        final(reader)@.data == old(reader)@.data,
        forall|endian: Endian|
            match (#[trigger] read_seq::<u8>(old(reader)@, endian, (), count as nat), r) {
                (Ok((ms, p)), Ok(v)) => v@ == ms && final(reader)@.pos == p,
                (Err(e), Err(e2)) => e2 == e && final(reader)@.pos == old(reader)@.pos,
                _ => false,
            },
{
    let ghost pre = reader@;
    let r = reader.read_bytes(count);
    proof {
        assert forall|endian: Endian|
            match (#[trigger] read_seq::<u8>(pre, endian, (), count as nat), r) {
                (Ok((ms, p)), Ok(v)) => v@ == ms && reader@.pos == p,
                (Err(e), Err(e2)) => e2 == e && reader@.pos == pre.pos,
                _ => false,
            } by {
            lemma_read_seq_u8(pre, endian, count as nat);
        }
    }
    r
}

/// A sequence of `c` one-byte decodes is exactly a bulk read of `c` bytes:
/// it succeeds on the next `c` bytes of the stream if they exist, in stream
/// order, and otherwise fails with a short read.
pub proof fn lemma_read_seq_u8(s: StreamView, endian: Endian, c: nat)
    requires
        0 <= s.pos,
    ensures
        c == 0 ==> read_seq::<u8>(s, endian, (), c) == Ok::<(Seq<u8>, int), Error>((
            Seq::<u8>::empty(),
            s.pos,
        )),
        c > 0 && s.pos + c <= s.data.len() ==> read_seq::<u8>(s, endian, (), c) == Ok::<
            (Seq<u8>, int),
            Error,
        >((s.data.subrange(s.pos, s.pos + c), s.pos + c)),
        c > 0 && s.pos + c > s.data.len() ==> read_seq::<u8>(s, endian, (), c) == Err::<
            (Seq<u8>, int),
            Error,
        >(Error::Io(IoErrorKind::UnexpectedEof)),
    decreases c,
{
    if c == 0 {
    } else {
        if s.pos + 1 <= s.data.len() {
            let b = s.data.subrange(s.pos, s.pos + 1);
            assert(b.len() == 1);
            assert(b[0] == s.data[s.pos]);
            assert(b.skip(1) =~= Seq::<u8>::empty());
            assert(b.drop_last() =~= Seq::<u8>::empty());
            assert(le_digits(Seq::<u8>::empty()) == 0);
            assert(be_digits(Seq::<u8>::empty()) == 0);
            assert(digits_of(endian, b) == s.data[s.pos]);
            let s2 = StreamView { data: s.data, pos: s.pos + 1 };
            lemma_read_seq_u8(s2, endian, (c - 1) as nat);
            if s.pos + c <= s.data.len() {
                if c == 1 {
                    assert(seq![s.data[s.pos]] + Seq::<u8>::empty() =~= s.data.subrange(
                        s.pos,
                        s.pos + 1,
                    ));
                } else {
                    assert(seq![s.data[s.pos]] + s.data.subrange(s.pos + 1, s.pos + c)
                        =~= s.data.subrange(s.pos, s.pos + c));
                }
            }
        }
    }
}

impl BinRead for u16 {
    type Args = ();

    type Model = u16;

    open spec fn model(self) -> u16 {
        self
    }

    open spec fn spec_read(s: StreamView, endian: Endian, args: ()) -> Result<(u16, int), Error> {
        match prim_read(s, endian, 2) {
            Ok((n, p)) => Ok((n as u16, p)),
            Err(e) => Err(e),
        }
    }

    open spec fn spec_after(m: u16, s: StreamView, endian: Endian, args: ()) -> Result<
        (u16, int),
        Error,
    > {
        Ok((m, s.pos))
    }

    open spec fn restores_on_failure() -> bool {
        true
    }

    fn read_options(reader: &mut Cursor, options: &ReadOptions, args: ()) -> (r: BinResult<u16>) {
        let n = match read_unsigned(reader, options, 2) {
            Ok(n) => n,
            Err(e) => {
                return Err(e);
            },
        };
        Ok(n as u16)
    }

    fn after_parse(self, reader: &mut Cursor, options: &ReadOptions, args: ()) -> (r: BinResult<
        u16,
    >) {
        Ok(self)
    }
}

impl BinRead for u32 {
    type Args = ();

    type Model = u32;

    open spec fn model(self) -> u32 {
        self
    }

    open spec fn spec_read(s: StreamView, endian: Endian, args: ()) -> Result<(u32, int), Error> {
        match prim_read(s, endian, 4) {
            Ok((n, p)) => Ok((n as u32, p)),
            Err(e) => Err(e),
        }
    }

    open spec fn spec_after(m: u32, s: StreamView, endian: Endian, args: ()) -> Result<
        (u32, int),
        Error,
    > {
        Ok((m, s.pos))
    }

    open spec fn restores_on_failure() -> bool {
        true
    }

    fn read_options(reader: &mut Cursor, options: &ReadOptions, args: ()) -> (r: BinResult<u32>) {
        let n = match read_unsigned(reader, options, 4) {
            Ok(n) => n,
            Err(e) => {
                return Err(e);
            },
        };
        Ok(n as u32)
    }

    fn after_parse(self, reader: &mut Cursor, options: &ReadOptions, args: ()) -> (r: BinResult<
        u32,
    >) {
        Ok(self)
    }
}

impl BinRead for u64 {
    type Args = ();

    type Model = u64;

    open spec fn model(self) -> u64 {
        self
    }

    open spec fn spec_read(s: StreamView, endian: Endian, args: ()) -> Result<(u64, int), Error> {
        match prim_read(s, endian, 8) {
            Ok((n, p)) => Ok((n as u64, p)),
            Err(e) => Err(e),
        }
    }

    open spec fn spec_after(m: u64, s: StreamView, endian: Endian, args: ()) -> Result<
        (u64, int),
        Error,
    > {
        Ok((m, s.pos))
    }

    open spec fn restores_on_failure() -> bool {
        true
    }

    fn read_options(reader: &mut Cursor, options: &ReadOptions, args: ()) -> (r: BinResult<u64>) {
        let n = match read_unsigned(reader, options, 8) {
            Ok(n) => n,
            Err(e) => {
                return Err(e);
            },
        };
        Ok(n as u64)
    }

    fn after_parse(self, reader: &mut Cursor, options: &ReadOptions, args: ()) -> (r: BinResult<
        u64,
    >) {
        Ok(self)
    }
}

impl BinRead for u128 {
    type Args = ();

    type Model = u128;

    open spec fn model(self) -> u128 {
        self
    }

    open spec fn spec_read(s: StreamView, endian: Endian, args: ()) -> Result<(u128, int), Error> {
        match prim_read(s, endian, 16) {
            Ok((n, p)) => Ok((n as u128, p)),
            Err(e) => Err(e),
        }
    }

    open spec fn spec_after(m: u128, s: StreamView, endian: Endian, args: ()) -> Result<
        (u128, int),
        Error,
    > {
        Ok((m, s.pos))
    }

    open spec fn restores_on_failure() -> bool {
        true
    }

    fn read_options(reader: &mut Cursor, options: &ReadOptions, args: ()) -> (r: BinResult<u128>) {
        let n = match read_unsigned(reader, options, 16) {
            Ok(n) => n,
            Err(e) => {
                return Err(e);
            },
        };
        Ok(n)
    }

    fn after_parse(self, reader: &mut Cursor, options: &ReadOptions, args: ()) -> (r: BinResult<
        u128,
    >) {
        Ok(self)
    }
}

impl BinRead for i8 {
    type Args = ();

    type Model = i8;

    open spec fn model(self) -> i8 {
        self
    }

    open spec fn spec_read(s: StreamView, endian: Endian, args: ()) -> Result<(i8, int), Error> {
        match prim_read(s, endian, 1) {
            Ok((n, p)) => Ok((n as i8, p)),
            Err(e) => Err(e),
        }
    }

    open spec fn spec_after(m: i8, s: StreamView, endian: Endian, args: ()) -> Result<
        (i8, int),
        Error,
    > {
        Ok((m, s.pos))
    }

    open spec fn restores_on_failure() -> bool {
        true
    }

    fn read_options(reader: &mut Cursor, options: &ReadOptions, args: ()) -> (r: BinResult<i8>) {
        let n = match read_unsigned(reader, options, 1) {
            Ok(n) => n,
            Err(e) => {
                return Err(e);
            },
        };
        Ok(n as i8)
    }

    fn after_parse(self, reader: &mut Cursor, options: &ReadOptions, args: ()) -> (r: BinResult<
        i8,
    >) {
        Ok(self)
    }
}

impl BinRead for i16 {
    type Args = ();

    type Model = i16;

    open spec fn model(self) -> i16 {
        self
    }

    open spec fn spec_read(s: StreamView, endian: Endian, args: ()) -> Result<(i16, int), Error> {
        match prim_read(s, endian, 2) {
            Ok((n, p)) => Ok((n as i16, p)),
            Err(e) => Err(e),
        }
    }

    open spec fn spec_after(m: i16, s: StreamView, endian: Endian, args: ()) -> Result<
        (i16, int),
        Error,
    > {
        Ok((m, s.pos))
    }

    open spec fn restores_on_failure() -> bool {
        true
    }

    fn read_options(reader: &mut Cursor, options: &ReadOptions, args: ()) -> (r: BinResult<i16>) {
        let n = match read_unsigned(reader, options, 2) {
            Ok(n) => n,
            Err(e) => {
                return Err(e);
            },
        };
        Ok(n as i16)
    }

    fn after_parse(self, reader: &mut Cursor, options: &ReadOptions, args: ()) -> (r: BinResult<
        i16,
    >) {
        Ok(self)
    }
}

impl BinRead for i32 {
    type Args = ();

    type Model = i32;

    open spec fn model(self) -> i32 {
        self
    }

    open spec fn spec_read(s: StreamView, endian: Endian, args: ()) -> Result<(i32, int), Error> {
        match prim_read(s, endian, 4) {
            Ok((n, p)) => Ok((n as i32, p)),
            Err(e) => Err(e),
        }
    }

    open spec fn spec_after(m: i32, s: StreamView, endian: Endian, args: ()) -> Result<
        (i32, int),
        Error,
    > {
        Ok((m, s.pos))
    }

    open spec fn restores_on_failure() -> bool {
        true
    }

    fn read_options(reader: &mut Cursor, options: &ReadOptions, args: ()) -> (r: BinResult<i32>) {
        let n = match read_unsigned(reader, options, 4) {
            Ok(n) => n,
            Err(e) => {
                return Err(e);
            },
        };
        Ok(n as i32)
    }

    fn after_parse(self, reader: &mut Cursor, options: &ReadOptions, args: ()) -> (r: BinResult<
        i32,
    >) {
        Ok(self)
    }
}

impl BinRead for i64 {
    type Args = ();

    type Model = i64;

    open spec fn model(self) -> i64 {
        self
    }

    open spec fn spec_read(s: StreamView, endian: Endian, args: ()) -> Result<(i64, int), Error> {
        match prim_read(s, endian, 8) {
            Ok((n, p)) => Ok((n as i64, p)),
            Err(e) => Err(e),
        }
    }

    open spec fn spec_after(m: i64, s: StreamView, endian: Endian, args: ()) -> Result<
        (i64, int),
        Error,
    > {
        Ok((m, s.pos))
    }

    open spec fn restores_on_failure() -> bool {
        true
    }

    fn read_options(reader: &mut Cursor, options: &ReadOptions, args: ()) -> (r: BinResult<i64>) {
        let n = match read_unsigned(reader, options, 8) {
            Ok(n) => n,
            Err(e) => {
                return Err(e);
            },
        };
        Ok(n as i64)
    }

    fn after_parse(self, reader: &mut Cursor, options: &ReadOptions, args: ()) -> (r: BinResult<
        i64,
    >) {
        Ok(self)
    }
}

impl BinRead for i128 {
    type Args = ();

    type Model = i128;

    open spec fn model(self) -> i128 {
        self
    }

    open spec fn spec_read(s: StreamView, endian: Endian, args: ()) -> Result<(i128, int), Error> {
        match prim_read(s, endian, 16) {
            Ok((n, p)) => Ok((n as i128, p)),
            Err(e) => Err(e),
        }
    }

    open spec fn spec_after(m: i128, s: StreamView, endian: Endian, args: ()) -> Result<
        (i128, int),
        Error,
    > {
        Ok((m, s.pos))
    }

    open spec fn restores_on_failure() -> bool {
        true
    }

    fn read_options(reader: &mut Cursor, options: &ReadOptions, args: ()) -> (r: BinResult<i128>) {
        let n = match read_unsigned(reader, options, 16) {
            Ok(n) => n,
            Err(e) => {
                return Err(e);
            },
        };
        Ok(n as i128)
    }

    fn after_parse(self, reader: &mut Cursor, options: &ReadOptions, args: ()) -> (r: BinResult<
        i128,
    >) {
        Ok(self)
    }
}

impl BinRead for char {
    type Args = ();

    type Model = char;

    open spec fn model(self) -> char {
        self
    }

    /// A placeholder text decoder: one raw byte, widened directly to a code
    /// point. This is a deliberate narrow approximation with no multi-byte
    /// text handling; callers may depend on the one-byte behavior.
    open spec fn spec_read(s: StreamView, endian: Endian, args: ()) -> Result<(char, int), Error> {
        match prim_read(s, endian, 1) {
            Ok((n, p)) => Ok(((n as u8) as char, p)),
            Err(e) => Err(e),
        }
    }

    open spec fn spec_after(m: char, s: StreamView, endian: Endian, args: ()) -> Result<
        (char, int),
        Error,
    > {
        Ok((m, s.pos))
    }

    open spec fn restores_on_failure() -> bool {
        true
    }

    fn read_options(reader: &mut Cursor, options: &ReadOptions, args: ()) -> (r: BinResult<char>) {
        let b = match u8::read_options(reader, options, ()) {
            Ok(b) => b,
            Err(e) => {
                return Err(e);
            },
        };
        Ok(b as char)
    }

    fn after_parse(self, reader: &mut Cursor, options: &ReadOptions, args: ()) -> (r: BinResult<
        char,
    >) {
        Ok(self)
    }
}

} // verus!
