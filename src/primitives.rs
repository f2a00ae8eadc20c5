//! Fixed-width integers in three byte orders, the tags they give, and
//! tuples of decode contracts.

use vstd::prelude::*;

use byteorder::ByteOrder;
use vstd::endian::{endianness, Endian};
use vstd::slice::slice_subrange;

use crate::array::consumes_static_size;
use crate::declarative::{outcome_matches, DeclRead, DeclResult, Declarative, StaticEncodingSize, Tag};
use crate::error::Error;

verus! {

/// The unsigned number that the first `n` bytes of `b` encode, most
/// significant byte first.
pub open spec fn be_uint(b: Seq<u8>, n: nat) -> nat
    decreases n,
{
    if n == 0 {
        0
    } else {
        be_uint(b, (n - 1) as nat) * 256 + b[n - 1] as nat
    }
}

/// A big-endian number depends on the bytes it is read from alone.
pub proof fn lemma_be_uint_prefix(b: Seq<u8>, m: nat, n: nat)
    requires
        n <= m <= b.len(),
    ensures
        be_uint(b.take(m as int), n) == be_uint(b, n),
    decreases n,
{
    if n > 0 {
        lemma_be_uint_prefix(b, m, (n - 1) as nat);
    }
}

/// The unsigned number that the first `n` bytes of `b` encode, least
/// significant byte first.
pub open spec fn le_uint(b: Seq<u8>, n: nat) -> nat
    decreases n,
{
    if n == 0 {
        0
    } else {
        b[0] as nat + 256 * le_uint(b.skip(1), (n - 1) as nat)
    }
}

/// The unsigned number that the first `n` bytes of `b` encode in the byte
/// order of the machine the code runs on.
pub open spec fn ne_uint(b: Seq<u8>, n: nat) -> nat {
    match endianness() {
        Endian::Big => be_uint(b, n),
        Endian::Little => le_uint(b, n),
    }
}

/// The outcome of decoding a primitive of `width` bytes whose value is
/// `value` when the buffer is long enough.
pub open spec fn fixed_outcome<V>(buffer: Seq<u8>, width: nat, value: V) -> Result<(V, nat), Error> {
    if buffer.len() < width {
        Err(Error::InsufficientBytes)
    } else {
        Ok((value, width))
    }
}

/// Each integer decode consumes exactly the integer's static width, so
/// arrays of integers place item `i` at `i` times that width.
pub proof fn lemma_integers_consume_static_size()
    ensures
        consumes_static_size::<u8>(),
        consumes_static_size::<i8>(),
        consumes_static_size::<u16>(),
        consumes_static_size::<i16>(),
        consumes_static_size::<u32>(),
        consumes_static_size::<i32>(),
        consumes_static_size::<u64>(),
        consumes_static_size::<i64>(),
{
}

/// The first byte of `buf`.
pub fn read_u8(buf: &[u8]) -> (r: u8)
    requires
        buf@.len() >= 1,
    ensures
        r == buf@[0],
{
    buf[0]
}

/// The first byte of `buf`, read as a two's complement number.
pub fn read_i8(buf: &[u8]) -> (r: i8)
    requires
        buf@.len() >= 1,
    ensures
        r == buf@[0] as i8,
{
    buf[0] as i8
}

/// Relies on byteorder's `BigEndian::read_u16`: the first 2 bytes,
/// most significant first.
#[verifier::external_body]
fn be_read_u16(buf: &[u8]) -> (r: u16)
    requires
        buf@.len() >= 2,
    ensures
        r as nat == be_uint(buf@, 2),
{
    byteorder::BigEndian::read_u16(buf)
}

/// Relies on byteorder's `BigEndian::read_u32`: the first 4 bytes,
/// most significant first.
#[verifier::external_body]
fn be_read_u32(buf: &[u8]) -> (r: u32)
    requires
        buf@.len() >= 4,
    ensures
        r as nat == be_uint(buf@, 4),
{
    byteorder::BigEndian::read_u32(buf)
}

/// Relies on byteorder's `BigEndian::read_u64`: the first 8 bytes,
/// most significant first.
#[verifier::external_body]
fn be_read_u64(buf: &[u8]) -> (r: u64)
    requires
        buf@.len() >= 8,
    ensures
        r as nat == be_uint(buf@, 8),
{
    byteorder::BigEndian::read_u64(buf)
}

/// Relies on byteorder's `LittleEndian::read_u16`: the first 2 bytes,
/// least significant first.
#[verifier::external_body]
fn le_read_u16(buf: &[u8]) -> (r: u16)
    requires
        buf@.len() >= 2,
    ensures
        r as nat == le_uint(buf@, 2),
{
    byteorder::LittleEndian::read_u16(buf)
}

/// Relies on byteorder's `LittleEndian::read_u32`: the first 4 bytes,
/// least significant first.
#[verifier::external_body]
fn le_read_u32(buf: &[u8]) -> (r: u32)
    requires
        buf@.len() >= 4,
    ensures
        r as nat == le_uint(buf@, 4),
{
    byteorder::LittleEndian::read_u32(buf)
}

/// Relies on byteorder's `LittleEndian::read_u64`: the first 8 bytes,
/// least significant first.
#[verifier::external_body]
fn le_read_u64(buf: &[u8]) -> (r: u64)
    requires
        buf@.len() >= 8,
    ensures
        r as nat == le_uint(buf@, 8),
{
    byteorder::LittleEndian::read_u64(buf)
}

/// Relies on byteorder's `NativeEndian::read_u16`: the first 2 bytes,
/// in the byte order of the target (byteorder makes
/// `NativeEndian` an alias of `LittleEndian` or `BigEndian` after it,
/// which vstd's `endianness()` stands for).
#[verifier::external_body]
fn ne_read_u16(buf: &[u8]) -> (r: u16)
    requires
        buf@.len() >= 2,
    ensures
        r as nat == ne_uint(buf@, 2),
{
    byteorder::NativeEndian::read_u16(buf)
}

/// Relies on byteorder's `NativeEndian::read_u32`: the first 4 bytes,
/// in the byte order of the target (byteorder makes
/// `NativeEndian` an alias of `LittleEndian` or `BigEndian` after it,
/// which vstd's `endianness()` stands for).
#[verifier::external_body]
fn ne_read_u32(buf: &[u8]) -> (r: u32)
    requires
        buf@.len() >= 4,
    ensures
        r as nat == ne_uint(buf@, 4),
{
    byteorder::NativeEndian::read_u32(buf)
}

/// Relies on byteorder's `NativeEndian::read_u64`: the first 8 bytes,
/// in the byte order of the target (byteorder makes
/// `NativeEndian` an alias of `LittleEndian` or `BigEndian` after it,
/// which vstd's `endianness()` stands for).
#[verifier::external_body]
fn ne_read_u64(buf: &[u8]) -> (r: u64)
    requires
        buf@.len() >= 8,
    ensures
        r as nat == ne_uint(buf@, 8),
{
    byteorder::NativeEndian::read_u64(buf)
}

impl<'buf> Declarative<'buf> for u8 {
    open spec fn spec_parse(buffer: Seq<u8>) -> Result<(u8, nat), Error> {
        fixed_outcome(buffer, 1, buffer[0])
    }

    fn parse(buffer: &'buf [u8]) -> (r: DeclResult<'buf, u8>) {
        if buffer.len() < 1 {
            return Err(Error::InsufficientBytes);
        }
        let v = read_u8(buffer);
        Ok((v, slice_subrange(buffer, 1, buffer.len())))
    }
}

impl StaticEncodingSize for u8 {
    open spec fn spec_size() -> nat {
        1
    }

    fn static_size() -> (r: usize) {
        1
    }
}

impl Tag for u8 {
    open spec fn spec_tag_len(&self) -> nat {
        1
    }

    open spec fn spec_tag_matches(&self, prefix: Seq<u8>) -> bool {
        prefix[0] == *self
    }

    fn validate<'b>(&self, buffer: &'b [u8]) -> (r: Result<&'b [u8], Error>) {
        let (value, rest) = match u8::parse(buffer) {
            Ok(p) => p,
            Err(e) => return Err(e),
        };
        proof {
            lemma_be_uint_prefix(buffer@, 1, 1);
        }
        if value == *self {
            Ok(rest)
        } else {
            Err(Error::TagMismatch)
        }
    }
}

impl<'buf> Declarative<'buf> for i8 {
    open spec fn spec_parse(buffer: Seq<u8>) -> Result<(i8, nat), Error> {
        fixed_outcome(buffer, 1, buffer[0] as i8)
    }

    fn parse(buffer: &'buf [u8]) -> (r: DeclResult<'buf, i8>) {
        if buffer.len() < 1 {
            return Err(Error::InsufficientBytes);
        }
        let v = read_i8(buffer);
        Ok((v, slice_subrange(buffer, 1, buffer.len())))
    }
}

impl StaticEncodingSize for i8 {
    open spec fn spec_size() -> nat {
        1
    }

    fn static_size() -> (r: usize) {
        1
    }
}

impl Tag for i8 {
    open spec fn spec_tag_len(&self) -> nat {
        1
    }

    open spec fn spec_tag_matches(&self, prefix: Seq<u8>) -> bool {
        prefix[0] as i8 == *self
    }

    fn validate<'b>(&self, buffer: &'b [u8]) -> (r: Result<&'b [u8], Error>) {
        let (value, rest) = match i8::parse(buffer) {
            Ok(p) => p,
            Err(e) => return Err(e),
        };
        proof {
            lemma_be_uint_prefix(buffer@, 1, 1);
        }
        if value == *self {
            Ok(rest)
        } else {
            Err(Error::TagMismatch)
        }
    }
}

impl<'buf> Declarative<'buf> for u16 {
    open spec fn spec_parse(buffer: Seq<u8>) -> Result<(u16, nat), Error> {
        fixed_outcome(buffer, 2, be_uint(buffer, 2) as u16)
    }

    fn parse(buffer: &'buf [u8]) -> (r: DeclResult<'buf, u16>) {
        if buffer.len() < 2 {
            return Err(Error::InsufficientBytes);
        }
        let v = be_read_u16(buffer);
        Ok((v, slice_subrange(buffer, 2, buffer.len())))
    }
}

impl StaticEncodingSize for u16 {
    open spec fn spec_size() -> nat {
        2
    }

    fn static_size() -> (r: usize) {
        2
    }
}

impl Tag for u16 {
    open spec fn spec_tag_len(&self) -> nat {
        2
    }

    open spec fn spec_tag_matches(&self, prefix: Seq<u8>) -> bool {
        be_uint(prefix, 2) as u16 == *self
    }

    fn validate<'b>(&self, buffer: &'b [u8]) -> (r: Result<&'b [u8], Error>) {
        let (value, rest) = match u16::parse(buffer) {
            Ok(p) => p,
            Err(e) => return Err(e),
        };
        proof {
            lemma_be_uint_prefix(buffer@, 2, 2);
        }
        if value == *self {
            Ok(rest)
        } else {
            Err(Error::TagMismatch)
        }
    }
}

impl<'buf> Declarative<'buf> for i16 {
    open spec fn spec_parse(buffer: Seq<u8>) -> Result<(i16, nat), Error> {
        fixed_outcome(buffer, 2, be_uint(buffer, 2) as u16 as i16)
    }

    fn parse(buffer: &'buf [u8]) -> (r: DeclResult<'buf, i16>) {
        if buffer.len() < 2 {
            return Err(Error::InsufficientBytes);
        }
        let v = be_read_u16(buffer) as i16;
        Ok((v, slice_subrange(buffer, 2, buffer.len())))
    }
}

impl StaticEncodingSize for i16 {
    open spec fn spec_size() -> nat {
        2
    }

    fn static_size() -> (r: usize) {
        2
    }
}

impl Tag for i16 {
    open spec fn spec_tag_len(&self) -> nat {
        2
    }

    open spec fn spec_tag_matches(&self, prefix: Seq<u8>) -> bool {
        be_uint(prefix, 2) as u16 as i16 == *self
    }

    fn validate<'b>(&self, buffer: &'b [u8]) -> (r: Result<&'b [u8], Error>) {
        let (value, rest) = match i16::parse(buffer) {
            Ok(p) => p,
            Err(e) => return Err(e),
        };
        proof {
            lemma_be_uint_prefix(buffer@, 2, 2);
        }
        if value == *self {
            Ok(rest)
        } else {
            Err(Error::TagMismatch)
        }
    }
}

impl<'buf> Declarative<'buf> for u32 {
    open spec fn spec_parse(buffer: Seq<u8>) -> Result<(u32, nat), Error> {
        fixed_outcome(buffer, 4, be_uint(buffer, 4) as u32)
    }

    fn parse(buffer: &'buf [u8]) -> (r: DeclResult<'buf, u32>) {
        if buffer.len() < 4 {
            return Err(Error::InsufficientBytes);
        }
        let v = be_read_u32(buffer);
        Ok((v, slice_subrange(buffer, 4, buffer.len())))
    }
}

impl StaticEncodingSize for u32 {
    open spec fn spec_size() -> nat {
        4
    }

    fn static_size() -> (r: usize) {
        4
    }
}

impl Tag for u32 {
    open spec fn spec_tag_len(&self) -> nat {
        4
    }

    open spec fn spec_tag_matches(&self, prefix: Seq<u8>) -> bool {
        be_uint(prefix, 4) as u32 == *self
    }

    fn validate<'b>(&self, buffer: &'b [u8]) -> (r: Result<&'b [u8], Error>) {
        let (value, rest) = match u32::parse(buffer) {
            Ok(p) => p,
            Err(e) => return Err(e),
        };
        proof {
            lemma_be_uint_prefix(buffer@, 4, 4);
        }
        if value == *self {
            Ok(rest)
        } else {
            Err(Error::TagMismatch)
        }
    }
}

impl<'buf> Declarative<'buf> for i32 {
    open spec fn spec_parse(buffer: Seq<u8>) -> Result<(i32, nat), Error> {
        fixed_outcome(buffer, 4, be_uint(buffer, 4) as u32 as i32)
    }

    fn parse(buffer: &'buf [u8]) -> (r: DeclResult<'buf, i32>) {
        if buffer.len() < 4 {
            return Err(Error::InsufficientBytes);
        }
        let v = be_read_u32(buffer) as i32;
        Ok((v, slice_subrange(buffer, 4, buffer.len())))
    }
}

impl StaticEncodingSize for i32 {
    open spec fn spec_size() -> nat {
        4
    }

    fn static_size() -> (r: usize) {
        4
    }
}

impl Tag for i32 {
    open spec fn spec_tag_len(&self) -> nat {
        4
    }

    open spec fn spec_tag_matches(&self, prefix: Seq<u8>) -> bool {
        be_uint(prefix, 4) as u32 as i32 == *self
    }

    fn validate<'b>(&self, buffer: &'b [u8]) -> (r: Result<&'b [u8], Error>) {
        let (value, rest) = match i32::parse(buffer) {
            Ok(p) => p,
            Err(e) => return Err(e),
        };
        proof {
            lemma_be_uint_prefix(buffer@, 4, 4);
        }
        if value == *self {
            Ok(rest)
        } else {
            Err(Error::TagMismatch)
        }
    }
}

impl<'buf> Declarative<'buf> for u64 {
    open spec fn spec_parse(buffer: Seq<u8>) -> Result<(u64, nat), Error> {
        fixed_outcome(buffer, 8, be_uint(buffer, 8) as u64)
    }

    fn parse(buffer: &'buf [u8]) -> (r: DeclResult<'buf, u64>) {
        if buffer.len() < 8 {
            return Err(Error::InsufficientBytes);
        }
        let v = be_read_u64(buffer);
        Ok((v, slice_subrange(buffer, 8, buffer.len())))
    }
}

impl StaticEncodingSize for u64 {
    open spec fn spec_size() -> nat {
        8
    }

    fn static_size() -> (r: usize) {
        8
    }
}

impl Tag for u64 {
    open spec fn spec_tag_len(&self) -> nat {
        8
    }

    open spec fn spec_tag_matches(&self, prefix: Seq<u8>) -> bool {
        be_uint(prefix, 8) as u64 == *self
    }

    fn validate<'b>(&self, buffer: &'b [u8]) -> (r: Result<&'b [u8], Error>) {
        let (value, rest) = match u64::parse(buffer) {
            Ok(p) => p,
            Err(e) => return Err(e),
        };
        proof {
            lemma_be_uint_prefix(buffer@, 8, 8);
        }
        if value == *self {
            Ok(rest)
        } else {
            Err(Error::TagMismatch)
        }
    }
}

impl<'buf> Declarative<'buf> for i64 {
    open spec fn spec_parse(buffer: Seq<u8>) -> Result<(i64, nat), Error> {
        fixed_outcome(buffer, 8, be_uint(buffer, 8) as u64 as i64)
    }

    fn parse(buffer: &'buf [u8]) -> (r: DeclResult<'buf, i64>) {
        if buffer.len() < 8 {
            return Err(Error::InsufficientBytes);
        }
        let v = be_read_u64(buffer) as i64;
        Ok((v, slice_subrange(buffer, 8, buffer.len())))
    }
}

impl StaticEncodingSize for i64 {
    open spec fn spec_size() -> nat {
        8
    }

    fn static_size() -> (r: usize) {
        8
    }
}

impl Tag for i64 {
    open spec fn spec_tag_len(&self) -> nat {
        8
    }

    open spec fn spec_tag_matches(&self, prefix: Seq<u8>) -> bool {
        be_uint(prefix, 8) as u64 as i64 == *self
    }

    fn validate<'b>(&self, buffer: &'b [u8]) -> (r: Result<&'b [u8], Error>) {
        let (value, rest) = match i64::parse(buffer) {
            Ok(p) => p,
            Err(e) => return Err(e),
        };
        proof {
            lemma_be_uint_prefix(buffer@, 8, 8);
        }
        if value == *self {
            Ok(rest)
        } else {
            Err(Error::TagMismatch)
        }
    }
}

/// A big-endian `u16`.
#[derive(Debug, Copy, Clone, PartialEq, Eq, PartialOrd, Ord, Structural)]
pub struct BeU16(pub u16);

impl View for BeU16 {
    type V = u16;

    open spec fn view(&self) -> u16 {
        self.0
    }
}

impl From<u16> for BeU16 {
    fn from(v: u16) -> (r: BeU16) {
        BeU16(v)
    }
}

impl vstd::std_specs::convert::FromSpecImpl<u16> for BeU16 {
    open spec fn obeys_from_spec() -> bool {
        true
    }

    open spec fn from_spec(v: u16) -> BeU16 {
        BeU16(v)
    }
}

impl<'buf> Declarative<'buf> for BeU16 {
    open spec fn spec_parse(buffer: Seq<u8>) -> Result<(u16, nat), Error> {
        fixed_outcome(buffer, 2, be_uint(buffer, 2) as u16)
    }

    fn parse(buffer: &'buf [u8]) -> (r: DeclResult<'buf, BeU16>) {
        if buffer.len() < 2 {
            return Err(Error::InsufficientBytes);
        }
        let v = be_read_u16(buffer);
        Ok((BeU16(v), slice_subrange(buffer, 2, buffer.len())))
    }
}

impl StaticEncodingSize for BeU16 {
    open spec fn spec_size() -> nat {
        2
    }

    fn static_size() -> (r: usize) {
        2
    }
}

/// A big-endian `i16`.
#[derive(Debug, Copy, Clone, PartialEq, Eq, PartialOrd, Ord, Structural)]
pub struct BeI16(pub i16);

impl View for BeI16 {
    type V = i16;

    open spec fn view(&self) -> i16 {
        self.0
    }
}

impl From<i16> for BeI16 {
    fn from(v: i16) -> (r: BeI16) {
        BeI16(v)
    }
}

impl vstd::std_specs::convert::FromSpecImpl<i16> for BeI16 {
    open spec fn obeys_from_spec() -> bool {
        true
    }

    open spec fn from_spec(v: i16) -> BeI16 {
        BeI16(v)
    }
}

impl<'buf> Declarative<'buf> for BeI16 {
    open spec fn spec_parse(buffer: Seq<u8>) -> Result<(i16, nat), Error> {
        fixed_outcome(buffer, 2, be_uint(buffer, 2) as u16 as i16)
    }

    fn parse(buffer: &'buf [u8]) -> (r: DeclResult<'buf, BeI16>) {
        if buffer.len() < 2 {
            return Err(Error::InsufficientBytes);
        }
        let v = be_read_u16(buffer) as i16;
        Ok((BeI16(v), slice_subrange(buffer, 2, buffer.len())))
    }
}

impl StaticEncodingSize for BeI16 {
    open spec fn spec_size() -> nat {
        2
    }

    fn static_size() -> (r: usize) {
        2
    }
}

/// A big-endian `u32`.
#[derive(Debug, Copy, Clone, PartialEq, Eq, PartialOrd, Ord, Structural)]
pub struct BeU32(pub u32);

impl View for BeU32 {
    type V = u32;

    open spec fn view(&self) -> u32 {
        self.0
    }
}

impl From<u32> for BeU32 {
    fn from(v: u32) -> (r: BeU32) {
        BeU32(v)
    }
}

impl vstd::std_specs::convert::FromSpecImpl<u32> for BeU32 {
    open spec fn obeys_from_spec() -> bool {
        true
    }

    open spec fn from_spec(v: u32) -> BeU32 {
        BeU32(v)
    }
}

impl<'buf> Declarative<'buf> for BeU32 {
    open spec fn spec_parse(buffer: Seq<u8>) -> Result<(u32, nat), Error> {
        fixed_outcome(buffer, 4, be_uint(buffer, 4) as u32)
    }

    fn parse(buffer: &'buf [u8]) -> (r: DeclResult<'buf, BeU32>) {
        if buffer.len() < 4 {
            return Err(Error::InsufficientBytes);
        }
        let v = be_read_u32(buffer);
        Ok((BeU32(v), slice_subrange(buffer, 4, buffer.len())))
    }
}

impl StaticEncodingSize for BeU32 {
    open spec fn spec_size() -> nat {
        4
    }

    fn static_size() -> (r: usize) {
        4
    }
}

/// A big-endian `i32`.
#[derive(Debug, Copy, Clone, PartialEq, Eq, PartialOrd, Ord, Structural)]
pub struct BeI32(pub i32);

impl View for BeI32 {
    type V = i32;

    open spec fn view(&self) -> i32 {
        self.0
    }
}

impl From<i32> for BeI32 {
    fn from(v: i32) -> (r: BeI32) {
        BeI32(v)
    }
}

impl vstd::std_specs::convert::FromSpecImpl<i32> for BeI32 {
    open spec fn obeys_from_spec() -> bool {
        true
    }

    open spec fn from_spec(v: i32) -> BeI32 {
        BeI32(v)
    }
}

impl<'buf> Declarative<'buf> for BeI32 {
    open spec fn spec_parse(buffer: Seq<u8>) -> Result<(i32, nat), Error> {
        fixed_outcome(buffer, 4, be_uint(buffer, 4) as u32 as i32)
    }

    fn parse(buffer: &'buf [u8]) -> (r: DeclResult<'buf, BeI32>) {
        if buffer.len() < 4 {
            return Err(Error::InsufficientBytes);
        }
        let v = be_read_u32(buffer) as i32;
        Ok((BeI32(v), slice_subrange(buffer, 4, buffer.len())))
    }
}

impl StaticEncodingSize for BeI32 {
    open spec fn spec_size() -> nat {
        4
    }

    fn static_size() -> (r: usize) {
        4
    }
}

/// A big-endian `u64`.
#[derive(Debug, Copy, Clone, PartialEq, Eq, PartialOrd, Ord, Structural)]
pub struct BeU64(pub u64);

impl View for BeU64 {
    type V = u64;

    open spec fn view(&self) -> u64 {
        self.0
    }
}

impl From<u64> for BeU64 {
    fn from(v: u64) -> (r: BeU64) {
        BeU64(v)
    }
}

impl vstd::std_specs::convert::FromSpecImpl<u64> for BeU64 {
    open spec fn obeys_from_spec() -> bool {
        true
    }

    open spec fn from_spec(v: u64) -> BeU64 {
        BeU64(v)
    }
}

impl<'buf> Declarative<'buf> for BeU64 {
    open spec fn spec_parse(buffer: Seq<u8>) -> Result<(u64, nat), Error> {
        fixed_outcome(buffer, 8, be_uint(buffer, 8) as u64)
    }

    fn parse(buffer: &'buf [u8]) -> (r: DeclResult<'buf, BeU64>) {
        if buffer.len() < 8 {
            return Err(Error::InsufficientBytes);
        }
        let v = be_read_u64(buffer);
        Ok((BeU64(v), slice_subrange(buffer, 8, buffer.len())))
    }
}

impl StaticEncodingSize for BeU64 {
    open spec fn spec_size() -> nat {
        8
    }

    fn static_size() -> (r: usize) {
        8
    }
}

/// A big-endian `i64`.
#[derive(Debug, Copy, Clone, PartialEq, Eq, PartialOrd, Ord, Structural)]
pub struct BeI64(pub i64);

impl View for BeI64 {
    type V = i64;

    open spec fn view(&self) -> i64 {
        self.0
    }
}

impl From<i64> for BeI64 {
    fn from(v: i64) -> (r: BeI64) {
        BeI64(v)
    }
}

impl vstd::std_specs::convert::FromSpecImpl<i64> for BeI64 {
    open spec fn obeys_from_spec() -> bool {
        true
    }

    open spec fn from_spec(v: i64) -> BeI64 {
        BeI64(v)
    }
}

impl<'buf> Declarative<'buf> for BeI64 {
    open spec fn spec_parse(buffer: Seq<u8>) -> Result<(i64, nat), Error> {
        fixed_outcome(buffer, 8, be_uint(buffer, 8) as u64 as i64)
    }

    fn parse(buffer: &'buf [u8]) -> (r: DeclResult<'buf, BeI64>) {
        if buffer.len() < 8 {
            return Err(Error::InsufficientBytes);
        }
        let v = be_read_u64(buffer) as i64;
        Ok((BeI64(v), slice_subrange(buffer, 8, buffer.len())))
    }
}

impl StaticEncodingSize for BeI64 {
    open spec fn spec_size() -> nat {
        8
    }

    fn static_size() -> (r: usize) {
        8
    }
}

/// A little-endian `u16`.
#[derive(Debug, Copy, Clone, PartialEq, Eq, PartialOrd, Ord, Structural)]
pub struct LeU16(pub u16);

impl View for LeU16 {
    type V = u16;

    open spec fn view(&self) -> u16 {
        self.0
    }
}

impl From<u16> for LeU16 {
    fn from(v: u16) -> (r: LeU16) {
        LeU16(v)
    }
}

impl vstd::std_specs::convert::FromSpecImpl<u16> for LeU16 {
    open spec fn obeys_from_spec() -> bool {
        true
    }

    open spec fn from_spec(v: u16) -> LeU16 {
        LeU16(v)
    }
}

impl<'buf> Declarative<'buf> for LeU16 {
    open spec fn spec_parse(buffer: Seq<u8>) -> Result<(u16, nat), Error> {
        fixed_outcome(buffer, 2, le_uint(buffer, 2) as u16)
    }

    fn parse(buffer: &'buf [u8]) -> (r: DeclResult<'buf, LeU16>) {
        if buffer.len() < 2 {
            return Err(Error::InsufficientBytes);
        }
        let v = le_read_u16(buffer);
        Ok((LeU16(v), slice_subrange(buffer, 2, buffer.len())))
    }
}

impl StaticEncodingSize for LeU16 {
    open spec fn spec_size() -> nat {
        2
    }

    fn static_size() -> (r: usize) {
        2
    }
}

/// A little-endian `i16`.
#[derive(Debug, Copy, Clone, PartialEq, Eq, PartialOrd, Ord, Structural)]
pub struct LeI16(pub i16);

impl View for LeI16 {
    type V = i16;

    open spec fn view(&self) -> i16 {
        self.0
    }
}

impl From<i16> for LeI16 {
    fn from(v: i16) -> (r: LeI16) {
        LeI16(v)
    }
}

impl vstd::std_specs::convert::FromSpecImpl<i16> for LeI16 {
    open spec fn obeys_from_spec() -> bool {
        true
    }

    open spec fn from_spec(v: i16) -> LeI16 {
        LeI16(v)
    }
}

impl<'buf> Declarative<'buf> for LeI16 {
    open spec fn spec_parse(buffer: Seq<u8>) -> Result<(i16, nat), Error> {
        fixed_outcome(buffer, 2, le_uint(buffer, 2) as u16 as i16)
    }

    fn parse(buffer: &'buf [u8]) -> (r: DeclResult<'buf, LeI16>) {
        if buffer.len() < 2 {
            return Err(Error::InsufficientBytes);
        }
        let v = le_read_u16(buffer) as i16;
        Ok((LeI16(v), slice_subrange(buffer, 2, buffer.len())))
    }
}

impl StaticEncodingSize for LeI16 {
    open spec fn spec_size() -> nat {
        2
    }

    fn static_size() -> (r: usize) {
        2
    }
}

/// A little-endian `u32`.
#[derive(Debug, Copy, Clone, PartialEq, Eq, PartialOrd, Ord, Structural)]
pub struct LeU32(pub u32);

impl View for LeU32 {
    type V = u32;

    open spec fn view(&self) -> u32 {
        self.0
    }
}

impl From<u32> for LeU32 {
    fn from(v: u32) -> (r: LeU32) {
        LeU32(v)
    }
}

impl vstd::std_specs::convert::FromSpecImpl<u32> for LeU32 {
    open spec fn obeys_from_spec() -> bool {
        true
    }

    open spec fn from_spec(v: u32) -> LeU32 {
        LeU32(v)
    }
}

impl<'buf> Declarative<'buf> for LeU32 {
    open spec fn spec_parse(buffer: Seq<u8>) -> Result<(u32, nat), Error> {
        fixed_outcome(buffer, 4, le_uint(buffer, 4) as u32)
    }

    fn parse(buffer: &'buf [u8]) -> (r: DeclResult<'buf, LeU32>) {
        if buffer.len() < 4 {
            return Err(Error::InsufficientBytes);
        }
        let v = le_read_u32(buffer);
        Ok((LeU32(v), slice_subrange(buffer, 4, buffer.len())))
    }
}

impl StaticEncodingSize for LeU32 {
    open spec fn spec_size() -> nat {
        4
    }

    fn static_size() -> (r: usize) {
        4
    }
}

/// A little-endian `i32`.
#[derive(Debug, Copy, Clone, PartialEq, Eq, PartialOrd, Ord, Structural)]
pub struct LeI32(pub i32);

impl View for LeI32 {
    type V = i32;

    open spec fn view(&self) -> i32 {
        self.0
    }
}

impl From<i32> for LeI32 {
    fn from(v: i32) -> (r: LeI32) {
        LeI32(v)
    }
}

impl vstd::std_specs::convert::FromSpecImpl<i32> for LeI32 {
    open spec fn obeys_from_spec() -> bool {
        true
    }

    open spec fn from_spec(v: i32) -> LeI32 {
        LeI32(v)
    }
}

impl<'buf> Declarative<'buf> for LeI32 {
    open spec fn spec_parse(buffer: Seq<u8>) -> Result<(i32, nat), Error> {
        fixed_outcome(buffer, 4, le_uint(buffer, 4) as u32 as i32)
    }

    fn parse(buffer: &'buf [u8]) -> (r: DeclResult<'buf, LeI32>) {
        if buffer.len() < 4 {
            return Err(Error::InsufficientBytes);
        }
        let v = le_read_u32(buffer) as i32;
        Ok((LeI32(v), slice_subrange(buffer, 4, buffer.len())))
    }
}

impl StaticEncodingSize for LeI32 {
    open spec fn spec_size() -> nat {
        4
    }

    fn static_size() -> (r: usize) {
        4
    }
}

/// A little-endian `u64`.
#[derive(Debug, Copy, Clone, PartialEq, Eq, PartialOrd, Ord, Structural)]
pub struct LeU64(pub u64);

impl View for LeU64 {
    type V = u64;

    open spec fn view(&self) -> u64 {
        self.0
    }
}

impl From<u64> for LeU64 {
    fn from(v: u64) -> (r: LeU64) {
        LeU64(v)
    }
}

impl vstd::std_specs::convert::FromSpecImpl<u64> for LeU64 {
    open spec fn obeys_from_spec() -> bool {
        true
    }

    open spec fn from_spec(v: u64) -> LeU64 {
        LeU64(v)
    }
}

impl<'buf> Declarative<'buf> for LeU64 {
    open spec fn spec_parse(buffer: Seq<u8>) -> Result<(u64, nat), Error> {
        fixed_outcome(buffer, 8, le_uint(buffer, 8) as u64)
    }

    fn parse(buffer: &'buf [u8]) -> (r: DeclResult<'buf, LeU64>) {
        if buffer.len() < 8 {
            return Err(Error::InsufficientBytes);
        }
        let v = le_read_u64(buffer);
        Ok((LeU64(v), slice_subrange(buffer, 8, buffer.len())))
    }
}

impl StaticEncodingSize for LeU64 {
    open spec fn spec_size() -> nat {
        8
    }

    fn static_size() -> (r: usize) {
        8
    }
}

/// A little-endian `i64`.
#[derive(Debug, Copy, Clone, PartialEq, Eq, PartialOrd, Ord, Structural)]
pub struct LeI64(pub i64);

impl View for LeI64 {
    type V = i64;

    open spec fn view(&self) -> i64 {
        self.0
    }
}

impl From<i64> for LeI64 {
    fn from(v: i64) -> (r: LeI64) {
        LeI64(v)
    }
}

impl vstd::std_specs::convert::FromSpecImpl<i64> for LeI64 {
    open spec fn obeys_from_spec() -> bool {
        true
    }

    open spec fn from_spec(v: i64) -> LeI64 {
        LeI64(v)
    }
}

impl<'buf> Declarative<'buf> for LeI64 {
    open spec fn spec_parse(buffer: Seq<u8>) -> Result<(i64, nat), Error> {
        fixed_outcome(buffer, 8, le_uint(buffer, 8) as u64 as i64)
    }

    fn parse(buffer: &'buf [u8]) -> (r: DeclResult<'buf, LeI64>) {
        if buffer.len() < 8 {
            return Err(Error::InsufficientBytes);
        }
        let v = le_read_u64(buffer) as i64;
        Ok((LeI64(v), slice_subrange(buffer, 8, buffer.len())))
    }
}

impl StaticEncodingSize for LeI64 {
    open spec fn spec_size() -> nat {
        8
    }

    fn static_size() -> (r: usize) {
        8
    }
}

/// A native-endian `u16`.
#[derive(Debug, Copy, Clone, PartialEq, Eq, PartialOrd, Ord, Structural)]
pub struct NeU16(pub u16);

impl View for NeU16 {
    type V = u16;

    open spec fn view(&self) -> u16 {
        self.0
    }
}

impl From<u16> for NeU16 {
    fn from(v: u16) -> (r: NeU16) {
        NeU16(v)
    }
}

impl vstd::std_specs::convert::FromSpecImpl<u16> for NeU16 {
    open spec fn obeys_from_spec() -> bool {
        true
    }

    open spec fn from_spec(v: u16) -> NeU16 {
        NeU16(v)
    }
}

impl<'buf> Declarative<'buf> for NeU16 {
    open spec fn spec_parse(buffer: Seq<u8>) -> Result<(u16, nat), Error> {
        fixed_outcome(buffer, 2, ne_uint(buffer, 2) as u16)
    }

    fn parse(buffer: &'buf [u8]) -> (r: DeclResult<'buf, NeU16>) {
        if buffer.len() < 2 {
            return Err(Error::InsufficientBytes);
        }
        let v = ne_read_u16(buffer);
        Ok((NeU16(v), slice_subrange(buffer, 2, buffer.len())))
    }
}

impl StaticEncodingSize for NeU16 {
    open spec fn spec_size() -> nat {
        2
    }

    fn static_size() -> (r: usize) {
        2
    }
}

/// A native-endian `i16`.
#[derive(Debug, Copy, Clone, PartialEq, Eq, PartialOrd, Ord, Structural)]
pub struct NeI16(pub i16);

impl View for NeI16 {
    type V = i16;

    open spec fn view(&self) -> i16 {
        self.0
    }
}

impl From<i16> for NeI16 {
    fn from(v: i16) -> (r: NeI16) {
        NeI16(v)
    }
}

impl vstd::std_specs::convert::FromSpecImpl<i16> for NeI16 {
    open spec fn obeys_from_spec() -> bool {
        true
    }

    open spec fn from_spec(v: i16) -> NeI16 {
        NeI16(v)
    }
}

impl<'buf> Declarative<'buf> for NeI16 {
    open spec fn spec_parse(buffer: Seq<u8>) -> Result<(i16, nat), Error> {
        fixed_outcome(buffer, 2, ne_uint(buffer, 2) as u16 as i16)
    }

    fn parse(buffer: &'buf [u8]) -> (r: DeclResult<'buf, NeI16>) {
        if buffer.len() < 2 {
            return Err(Error::InsufficientBytes);
        }
        let v = ne_read_u16(buffer) as i16;
        Ok((NeI16(v), slice_subrange(buffer, 2, buffer.len())))
    }
}

impl StaticEncodingSize for NeI16 {
    open spec fn spec_size() -> nat {
        2
    }

    fn static_size() -> (r: usize) {
        2
    }
}

/// A native-endian `u32`.
#[derive(Debug, Copy, Clone, PartialEq, Eq, PartialOrd, Ord, Structural)]
pub struct NeU32(pub u32);

impl View for NeU32 {
    type V = u32;

    open spec fn view(&self) -> u32 {
        self.0
    }
}

impl From<u32> for NeU32 {
    fn from(v: u32) -> (r: NeU32) {
        NeU32(v)
    }
}

impl vstd::std_specs::convert::FromSpecImpl<u32> for NeU32 {
    open spec fn obeys_from_spec() -> bool {
        true
    }

    open spec fn from_spec(v: u32) -> NeU32 {
        NeU32(v)
    }
}

impl<'buf> Declarative<'buf> for NeU32 {
    open spec fn spec_parse(buffer: Seq<u8>) -> Result<(u32, nat), Error> {
        fixed_outcome(buffer, 4, ne_uint(buffer, 4) as u32)
    }

    fn parse(buffer: &'buf [u8]) -> (r: DeclResult<'buf, NeU32>) {
        if buffer.len() < 4 {
            return Err(Error::InsufficientBytes);
        }
        let v = ne_read_u32(buffer);
        Ok((NeU32(v), slice_subrange(buffer, 4, buffer.len())))
    }
}

impl StaticEncodingSize for NeU32 {
    open spec fn spec_size() -> nat {
        4
    }

    fn static_size() -> (r: usize) {
        4
    }
}

/// A native-endian `i32`.
#[derive(Debug, Copy, Clone, PartialEq, Eq, PartialOrd, Ord, Structural)]
pub struct NeI32(pub i32);

impl View for NeI32 {
    type V = i32;

    open spec fn view(&self) -> i32 {
        self.0
    }
}

impl From<i32> for NeI32 {
    fn from(v: i32) -> (r: NeI32) {
        NeI32(v)
    }
}

impl vstd::std_specs::convert::FromSpecImpl<i32> for NeI32 {
    open spec fn obeys_from_spec() -> bool {
        true
    }

    open spec fn from_spec(v: i32) -> NeI32 {
        NeI32(v)
    }
}

impl<'buf> Declarative<'buf> for NeI32 {
    open spec fn spec_parse(buffer: Seq<u8>) -> Result<(i32, nat), Error> {
        fixed_outcome(buffer, 4, ne_uint(buffer, 4) as u32 as i32)
    }

    fn parse(buffer: &'buf [u8]) -> (r: DeclResult<'buf, NeI32>) {
        if buffer.len() < 4 {
            return Err(Error::InsufficientBytes);
        }
        let v = ne_read_u32(buffer) as i32;
        Ok((NeI32(v), slice_subrange(buffer, 4, buffer.len())))
    }
}

impl StaticEncodingSize for NeI32 {
    open spec fn spec_size() -> nat {
        4
    }

    fn static_size() -> (r: usize) {
        4
    }
}

/// A native-endian `u64`.
#[derive(Debug, Copy, Clone, PartialEq, Eq, PartialOrd, Ord, Structural)]
pub struct NeU64(pub u64);

impl View for NeU64 {
    type V = u64;

    open spec fn view(&self) -> u64 {
        self.0
    }
}

impl From<u64> for NeU64 {
    fn from(v: u64) -> (r: NeU64) {
        NeU64(v)
    }
}

impl vstd::std_specs::convert::FromSpecImpl<u64> for NeU64 {
    open spec fn obeys_from_spec() -> bool {
        true
    }

    open spec fn from_spec(v: u64) -> NeU64 {
        NeU64(v)
    }
}

impl<'buf> Declarative<'buf> for NeU64 {
    open spec fn spec_parse(buffer: Seq<u8>) -> Result<(u64, nat), Error> {
        fixed_outcome(buffer, 8, ne_uint(buffer, 8) as u64)
    }

    fn parse(buffer: &'buf [u8]) -> (r: DeclResult<'buf, NeU64>) {
        if buffer.len() < 8 {
            return Err(Error::InsufficientBytes);
        }
        let v = ne_read_u64(buffer);
        Ok((NeU64(v), slice_subrange(buffer, 8, buffer.len())))
    }
}

impl StaticEncodingSize for NeU64 {
    open spec fn spec_size() -> nat {
        8
    }

    fn static_size() -> (r: usize) {
        8
    }
}

/// A native-endian `i64`.
#[derive(Debug, Copy, Clone, PartialEq, Eq, PartialOrd, Ord, Structural)]
pub struct NeI64(pub i64);

impl View for NeI64 {
    type V = i64;

    open spec fn view(&self) -> i64 {
        self.0
    }
}

impl From<i64> for NeI64 {
    fn from(v: i64) -> (r: NeI64) {
        NeI64(v)
    }
}

impl vstd::std_specs::convert::FromSpecImpl<i64> for NeI64 {
    open spec fn obeys_from_spec() -> bool {
        true
    }

    open spec fn from_spec(v: i64) -> NeI64 {
        NeI64(v)
    }
}

impl<'buf> Declarative<'buf> for NeI64 {
    open spec fn spec_parse(buffer: Seq<u8>) -> Result<(i64, nat), Error> {
        fixed_outcome(buffer, 8, ne_uint(buffer, 8) as u64 as i64)
    }

    fn parse(buffer: &'buf [u8]) -> (r: DeclResult<'buf, NeI64>) {
        if buffer.len() < 8 {
            return Err(Error::InsufficientBytes);
        }
        let v = ne_read_u64(buffer) as i64;
        Ok((NeI64(v), slice_subrange(buffer, 8, buffer.len())))
    }
}

impl StaticEncodingSize for NeI64 {
    open spec fn spec_size() -> nat {
        8
    }

    fn static_size() -> (r: usize) {
        8
    }
}


impl<'buf, A: Declarative<'buf>, B: Declarative<'buf>> Declarative<'buf> for (A, B) {
    /// Decodes the elements in order, each after the bytes of the one
    /// before, and stops at the first failure.
    open spec fn spec_parse(buffer: Seq<u8>) -> Result<((A::V, B::V), nat), Error> {
        match A::spec_parse(buffer) {
            Err(e) => Err(e),
            Ok((v0, n0)) => {
                let b1 = buffer.skip(n0 as int);
                match B::spec_parse(b1) {
                    Err(e) => Err(e),
                    Ok((v1, n1)) => {
                        Ok(((v0, v1), n0 + n1))
                    },
                }
            },
        }
    }

    fn parse(buffer: &'buf [u8]) -> (r: DeclResult<'buf, Self>) {
        let mut cursor = buffer;
        let v0 = match DeclRead::parse::<A>(&mut cursor) {
            Ok(v) => v,
            Err(e) => return Err(e),
        };
        let v1 = match DeclRead::parse::<B>(&mut cursor) {
            Ok(v) => v,
            Err(e) => return Err(e),
        };
        assert(cursor@ =~= buffer@.skip(buffer@.len() - cursor@.len()));
        Ok(((v0, v1), cursor))
    }
}

impl<'buf, A: Declarative<'buf>, B: Declarative<'buf>, C: Declarative<'buf>> Declarative<'buf> for (A, B, C) {
    /// Decodes the elements in order, each after the bytes of the one
    /// before, and stops at the first failure.
    open spec fn spec_parse(buffer: Seq<u8>) -> Result<((A::V, B::V, C::V), nat), Error> {
        match A::spec_parse(buffer) {
            Err(e) => Err(e),
            Ok((v0, n0)) => {
                let b1 = buffer.skip(n0 as int);
                match B::spec_parse(b1) {
                    Err(e) => Err(e),
                    Ok((v1, n1)) => {
                        let b2 = b1.skip(n1 as int);
                        match C::spec_parse(b2) {
                            Err(e) => Err(e),
                            Ok((v2, n2)) => {
                                Ok(((v0, v1, v2), n0 + n1 + n2))
                            },
                        }
                    },
                }
            },
        }
    }

    fn parse(buffer: &'buf [u8]) -> (r: DeclResult<'buf, Self>) {
        let mut cursor = buffer;
        let v0 = match DeclRead::parse::<A>(&mut cursor) {
            Ok(v) => v,
            Err(e) => return Err(e),
        };
        let v1 = match DeclRead::parse::<B>(&mut cursor) {
            Ok(v) => v,
            Err(e) => return Err(e),
        };
        let v2 = match DeclRead::parse::<C>(&mut cursor) {
            Ok(v) => v,
            Err(e) => return Err(e),
        };
        assert(cursor@ =~= buffer@.skip(buffer@.len() - cursor@.len()));
        Ok(((v0, v1, v2), cursor))
    }
}

impl<'buf, A: Declarative<'buf>, B: Declarative<'buf>, C: Declarative<'buf>, D: Declarative<'buf>> Declarative<'buf> for (A, B, C, D) {
    /// Decodes the elements in order, each after the bytes of the one
    /// before, and stops at the first failure.
    open spec fn spec_parse(buffer: Seq<u8>) -> Result<((A::V, B::V, C::V, D::V), nat), Error> {
        match A::spec_parse(buffer) {
            Err(e) => Err(e),
            Ok((v0, n0)) => {
                let b1 = buffer.skip(n0 as int);
                match B::spec_parse(b1) {
                    Err(e) => Err(e),
                    Ok((v1, n1)) => {
                        let b2 = b1.skip(n1 as int);
                        match C::spec_parse(b2) {
                            Err(e) => Err(e),
                            Ok((v2, n2)) => {
                                let b3 = b2.skip(n2 as int);
                                match D::spec_parse(b3) {
                                    Err(e) => Err(e),
                                    Ok((v3, n3)) => {
                                        Ok(((v0, v1, v2, v3), n0 + n1 + n2 + n3))
                                    },
                                }
                            },
                        }
                    },
                }
            },
        }
    }

    fn parse(buffer: &'buf [u8]) -> (r: DeclResult<'buf, Self>) {
        let mut cursor = buffer;
        let v0 = match DeclRead::parse::<A>(&mut cursor) {
            Ok(v) => v,
            Err(e) => return Err(e),
        };
        let v1 = match DeclRead::parse::<B>(&mut cursor) {
            Ok(v) => v,
            Err(e) => return Err(e),
        };
        let v2 = match DeclRead::parse::<C>(&mut cursor) {
            Ok(v) => v,
            Err(e) => return Err(e),
        };
        let v3 = match DeclRead::parse::<D>(&mut cursor) {
            Ok(v) => v,
            Err(e) => return Err(e),
        };
        assert(cursor@ =~= buffer@.skip(buffer@.len() - cursor@.len()));
        Ok(((v0, v1, v2, v3), cursor))
    }
}

impl<'buf, A: Declarative<'buf>, B: Declarative<'buf>, C: Declarative<'buf>, D: Declarative<'buf>, E: Declarative<'buf>> Declarative<'buf> for (A, B, C, D, E) {
    /// Decodes the elements in order, each after the bytes of the one
    /// before, and stops at the first failure.
    open spec fn spec_parse(buffer: Seq<u8>) -> Result<((A::V, B::V, C::V, D::V, E::V), nat), Error> {
        match A::spec_parse(buffer) {
            Err(e) => Err(e),
            Ok((v0, n0)) => {
                let b1 = buffer.skip(n0 as int);
                match B::spec_parse(b1) {
                    Err(e) => Err(e),
                    Ok((v1, n1)) => {
                        let b2 = b1.skip(n1 as int);
                        match C::spec_parse(b2) {
                            Err(e) => Err(e),
                            Ok((v2, n2)) => {
                                let b3 = b2.skip(n2 as int);
                                match D::spec_parse(b3) {
                                    Err(e) => Err(e),
                                    Ok((v3, n3)) => {
                                        let b4 = b3.skip(n3 as int);
                                        match E::spec_parse(b4) {
                                            Err(e) => Err(e),
                                            Ok((v4, n4)) => {
                                                Ok(((v0, v1, v2, v3, v4), n0 + n1 + n2 + n3 + n4))
                                            },
                                        }
                                    },
                                }
                            },
                        }
                    },
                }
            },
        }
    }

    fn parse(buffer: &'buf [u8]) -> (r: DeclResult<'buf, Self>) {
        let mut cursor = buffer;
        let v0 = match DeclRead::parse::<A>(&mut cursor) {
            Ok(v) => v,
            Err(e) => return Err(e),
        };
        let v1 = match DeclRead::parse::<B>(&mut cursor) {
            Ok(v) => v,
            Err(e) => return Err(e),
        };
        let v2 = match DeclRead::parse::<C>(&mut cursor) {
            Ok(v) => v,
            Err(e) => return Err(e),
        };
        let v3 = match DeclRead::parse::<D>(&mut cursor) {
            Ok(v) => v,
            Err(e) => return Err(e),
        };
        let v4 = match DeclRead::parse::<E>(&mut cursor) {
            Ok(v) => v,
            Err(e) => return Err(e),
        };
        assert(cursor@ =~= buffer@.skip(buffer@.len() - cursor@.len()));
        Ok(((v0, v1, v2, v3, v4), cursor))
    }
}

impl<'buf, A: Declarative<'buf>, B: Declarative<'buf>, C: Declarative<'buf>, D: Declarative<'buf>, E: Declarative<'buf>, F: Declarative<'buf>> Declarative<'buf> for (A, B, C, D, E, F) {
    /// Decodes the elements in order, each after the bytes of the one
    /// before, and stops at the first failure.
    open spec fn spec_parse(buffer: Seq<u8>) -> Result<((A::V, B::V, C::V, D::V, E::V, F::V), nat), Error> {
        match A::spec_parse(buffer) {
            Err(e) => Err(e),
            Ok((v0, n0)) => {
                let b1 = buffer.skip(n0 as int);
                match B::spec_parse(b1) {
                    Err(e) => Err(e),
                    Ok((v1, n1)) => {
                        let b2 = b1.skip(n1 as int);
                        match C::spec_parse(b2) {
                            Err(e) => Err(e),
                            Ok((v2, n2)) => {
                                let b3 = b2.skip(n2 as int);
                                match D::spec_parse(b3) {
                                    Err(e) => Err(e),
                                    Ok((v3, n3)) => {
                                        let b4 = b3.skip(n3 as int);
                                        match E::spec_parse(b4) {
                                            Err(e) => Err(e),
                                            Ok((v4, n4)) => {
                                                let b5 = b4.skip(n4 as int);
                                                match F::spec_parse(b5) {
                                                    Err(e) => Err(e),
                                                    Ok((v5, n5)) => {
                                                        Ok(((v0, v1, v2, v3, v4, v5), n0 + n1 + n2 + n3 + n4 + n5))
                                                    },
                                                }
                                            },
                                        }
                                    },
                                }
                            },
                        }
                    },
                }
            },
        }
    }

    fn parse(buffer: &'buf [u8]) -> (r: DeclResult<'buf, Self>) {
        let mut cursor = buffer;
        let v0 = match DeclRead::parse::<A>(&mut cursor) {
            Ok(v) => v,
            Err(e) => return Err(e),
        };
        let v1 = match DeclRead::parse::<B>(&mut cursor) {
            Ok(v) => v,
            Err(e) => return Err(e),
        };
        let v2 = match DeclRead::parse::<C>(&mut cursor) {
            Ok(v) => v,
            Err(e) => return Err(e),
        };
        let v3 = match DeclRead::parse::<D>(&mut cursor) {
            Ok(v) => v,
            Err(e) => return Err(e),
        };
        let v4 = match DeclRead::parse::<E>(&mut cursor) {
            Ok(v) => v,
            Err(e) => return Err(e),
        };
        let v5 = match DeclRead::parse::<F>(&mut cursor) {
            Ok(v) => v,
            Err(e) => return Err(e),
        };
        assert(cursor@ =~= buffer@.skip(buffer@.len() - cursor@.len()));
        Ok(((v0, v1, v2, v3, v4, v5), cursor))
    }
}

impl<'buf, A: Declarative<'buf>, B: Declarative<'buf>, C: Declarative<'buf>, D: Declarative<'buf>, E: Declarative<'buf>, F: Declarative<'buf>, G: Declarative<'buf>> Declarative<'buf> for (A, B, C, D, E, F, G) {
    /// Decodes the elements in order, each after the bytes of the one
    /// before, and stops at the first failure.
    open spec fn spec_parse(buffer: Seq<u8>) -> Result<((A::V, B::V, C::V, D::V, E::V, F::V, G::V), nat), Error> {
        match A::spec_parse(buffer) {
            Err(e) => Err(e),
            Ok((v0, n0)) => {
                let b1 = buffer.skip(n0 as int);
                match B::spec_parse(b1) {
                    Err(e) => Err(e),
                    Ok((v1, n1)) => {
                        let b2 = b1.skip(n1 as int);
                        match C::spec_parse(b2) {
                            Err(e) => Err(e),
                            Ok((v2, n2)) => {
                                let b3 = b2.skip(n2 as int);
                                match D::spec_parse(b3) {
                                    Err(e) => Err(e),
                                    Ok((v3, n3)) => {
                                        let b4 = b3.skip(n3 as int);
                                        match E::spec_parse(b4) {
                                            Err(e) => Err(e),
                                            Ok((v4, n4)) => {
                                                let b5 = b4.skip(n4 as int);
                                                match F::spec_parse(b5) {
                                                    Err(e) => Err(e),
                                                    Ok((v5, n5)) => {
                                                        let b6 = b5.skip(n5 as int);
                                                        match G::spec_parse(b6) {
                                                            Err(e) => Err(e),
                                                            Ok((v6, n6)) => {
                                                                Ok(((v0, v1, v2, v3, v4, v5, v6), n0 + n1 + n2 + n3 + n4 + n5 + n6))
                                                            },
                                                        }
                                                    },
                                                }
                                            },
                                        }
                                    },
                                }
                            },
                        }
                    },
                }
            },
        }
    }

    fn parse(buffer: &'buf [u8]) -> (r: DeclResult<'buf, Self>) {
        let mut cursor = buffer;
        let v0 = match DeclRead::parse::<A>(&mut cursor) {
            Ok(v) => v,
            Err(e) => return Err(e),
        };
        let v1 = match DeclRead::parse::<B>(&mut cursor) {
            Ok(v) => v,
            Err(e) => return Err(e),
        };
        let v2 = match DeclRead::parse::<C>(&mut cursor) {
            Ok(v) => v,
            Err(e) => return Err(e),
        };
        let v3 = match DeclRead::parse::<D>(&mut cursor) {
            Ok(v) => v,
            Err(e) => return Err(e),
        };
        let v4 = match DeclRead::parse::<E>(&mut cursor) {
            Ok(v) => v,
            Err(e) => return Err(e),
        };
        let v5 = match DeclRead::parse::<F>(&mut cursor) {
            Ok(v) => v,
            Err(e) => return Err(e),
        };
        let v6 = match DeclRead::parse::<G>(&mut cursor) {
            Ok(v) => v,
            Err(e) => return Err(e),
        };
        assert(cursor@ =~= buffer@.skip(buffer@.len() - cursor@.len()));
        Ok(((v0, v1, v2, v3, v4, v5, v6), cursor))
    }
}

impl<'buf, A: Declarative<'buf>, B: Declarative<'buf>, C: Declarative<'buf>, D: Declarative<'buf>, E: Declarative<'buf>, F: Declarative<'buf>, G: Declarative<'buf>, H: Declarative<'buf>> Declarative<'buf> for (A, B, C, D, E, F, G, H) {
    /// Decodes the elements in order, each after the bytes of the one
    /// before, and stops at the first failure.
    open spec fn spec_parse(buffer: Seq<u8>) -> Result<((A::V, B::V, C::V, D::V, E::V, F::V, G::V, H::V), nat), Error> {
        match A::spec_parse(buffer) {
            Err(e) => Err(e),
            Ok((v0, n0)) => {
                let b1 = buffer.skip(n0 as int);
                match B::spec_parse(b1) {
                    Err(e) => Err(e),
                    Ok((v1, n1)) => {
                        let b2 = b1.skip(n1 as int);
                        match C::spec_parse(b2) {
                            Err(e) => Err(e),
                            Ok((v2, n2)) => {
                                let b3 = b2.skip(n2 as int);
                                match D::spec_parse(b3) {
                                    Err(e) => Err(e),
                                    Ok((v3, n3)) => {
                                        let b4 = b3.skip(n3 as int);
                                        match E::spec_parse(b4) {
                                            Err(e) => Err(e),
                                            Ok((v4, n4)) => {
                                                let b5 = b4.skip(n4 as int);
                                                match F::spec_parse(b5) {
                                                    Err(e) => Err(e),
                                                    Ok((v5, n5)) => {
                                                        let b6 = b5.skip(n5 as int);
                                                        match G::spec_parse(b6) {
                                                            Err(e) => Err(e),
                                                            Ok((v6, n6)) => {
                                                                let b7 = b6.skip(n6 as int);
                                                                match H::spec_parse(b7) {
                                                                    Err(e) => Err(e),
                                                                    Ok((v7, n7)) => {
                                                                        Ok(((v0, v1, v2, v3, v4, v5, v6, v7), n0 + n1 + n2 + n3 + n4 + n5 + n6 + n7))
                                                                    },
                                                                }
                                                            },
                                                        }
                                                    },
                                                }
                                            },
                                        }
                                    },
                                }
                            },
                        }
                    },
                }
            },
        }
    }

    fn parse(buffer: &'buf [u8]) -> (r: DeclResult<'buf, Self>) {
        let mut cursor = buffer;
        let v0 = match DeclRead::parse::<A>(&mut cursor) {
            Ok(v) => v,
            Err(e) => return Err(e),
        };
        let v1 = match DeclRead::parse::<B>(&mut cursor) {
            Ok(v) => v,
            Err(e) => return Err(e),
        };
        let v2 = match DeclRead::parse::<C>(&mut cursor) {
            Ok(v) => v,
            Err(e) => return Err(e),
        };
        let v3 = match DeclRead::parse::<D>(&mut cursor) {
            Ok(v) => v,
            Err(e) => return Err(e),
        };
        let v4 = match DeclRead::parse::<E>(&mut cursor) {
            Ok(v) => v,
            Err(e) => return Err(e),
        };
        let v5 = match DeclRead::parse::<F>(&mut cursor) {
            Ok(v) => v,
            Err(e) => return Err(e),
        };
        let v6 = match DeclRead::parse::<G>(&mut cursor) {
            Ok(v) => v,
            Err(e) => return Err(e),
        };
        let v7 = match DeclRead::parse::<H>(&mut cursor) {
            Ok(v) => v,
            Err(e) => return Err(e),
        };
        assert(cursor@ =~= buffer@.skip(buffer@.len() - cursor@.len()));
        Ok(((v0, v1, v2, v3, v4, v5, v6, v7), cursor))
    }
}

impl<'buf, A: Declarative<'buf>, B: Declarative<'buf>, C: Declarative<'buf>, D: Declarative<'buf>, E: Declarative<'buf>, F: Declarative<'buf>, G: Declarative<'buf>, H: Declarative<'buf>, I: Declarative<'buf>> Declarative<'buf> for (A, B, C, D, E, F, G, H, I) {
    /// Decodes the elements in order, each after the bytes of the one
    /// before, and stops at the first failure.
    open spec fn spec_parse(buffer: Seq<u8>) -> Result<((A::V, B::V, C::V, D::V, E::V, F::V, G::V, H::V, I::V), nat), Error> {
        match A::spec_parse(buffer) {
            Err(e) => Err(e),
            Ok((v0, n0)) => {
                let b1 = buffer.skip(n0 as int);
                match B::spec_parse(b1) {
                    Err(e) => Err(e),
                    Ok((v1, n1)) => {
                        let b2 = b1.skip(n1 as int);
                        match C::spec_parse(b2) {
                            Err(e) => Err(e),
                            Ok((v2, n2)) => {
                                let b3 = b2.skip(n2 as int);
                                match D::spec_parse(b3) {
                                    Err(e) => Err(e),
                                    Ok((v3, n3)) => {
                                        let b4 = b3.skip(n3 as int);
                                        match E::spec_parse(b4) {
                                            Err(e) => Err(e),
                                            Ok((v4, n4)) => {
                                                let b5 = b4.skip(n4 as int);
                                                match F::spec_parse(b5) {
                                                    Err(e) => Err(e),
                                                    Ok((v5, n5)) => {
                                                        let b6 = b5.skip(n5 as int);
                                                        match G::spec_parse(b6) {
                                                            Err(e) => Err(e),
                                                            Ok((v6, n6)) => {
                                                                let b7 = b6.skip(n6 as int);
                                                                match H::spec_parse(b7) {
                                                                    Err(e) => Err(e),
                                                                    Ok((v7, n7)) => {
                                                                        let b8 = b7.skip(n7 as int);
                                                                        match I::spec_parse(b8) {
                                                                            Err(e) => Err(e),
                                                                            Ok((v8, n8)) => {
                                                                                Ok(((v0, v1, v2, v3, v4, v5, v6, v7, v8), n0 + n1 + n2 + n3 + n4 + n5 + n6 + n7 + n8))
                                                                            },
                                                                        }
                                                                    },
                                                                }
                                                            },
                                                        }
                                                    },
                                                }
                                            },
                                        }
                                    },
                                }
                            },
                        }
                    },
                }
            },
        }
    }

    fn parse(buffer: &'buf [u8]) -> (r: DeclResult<'buf, Self>) {
        let mut cursor = buffer;
        let v0 = match DeclRead::parse::<A>(&mut cursor) {
            Ok(v) => v,
            Err(e) => return Err(e),
        };
        let v1 = match DeclRead::parse::<B>(&mut cursor) {
            Ok(v) => v,
            Err(e) => return Err(e),
        };
        let v2 = match DeclRead::parse::<C>(&mut cursor) {
            Ok(v) => v,
            Err(e) => return Err(e),
        };
        let v3 = match DeclRead::parse::<D>(&mut cursor) {
            Ok(v) => v,
            Err(e) => return Err(e),
        };
        let v4 = match DeclRead::parse::<E>(&mut cursor) {
            Ok(v) => v,
            Err(e) => return Err(e),
        };
        let v5 = match DeclRead::parse::<F>(&mut cursor) {
            Ok(v) => v,
            Err(e) => return Err(e),
        };
        let v6 = match DeclRead::parse::<G>(&mut cursor) {
            Ok(v) => v,
            Err(e) => return Err(e),
        };
        let v7 = match DeclRead::parse::<H>(&mut cursor) {
            Ok(v) => v,
            Err(e) => return Err(e),
        };
        let v8 = match DeclRead::parse::<I>(&mut cursor) {
            Ok(v) => v,
            Err(e) => return Err(e),
        };
        assert(cursor@ =~= buffer@.skip(buffer@.len() - cursor@.len()));
        Ok(((v0, v1, v2, v3, v4, v5, v6, v7, v8), cursor))
    }
}

impl<'buf, A: Declarative<'buf>, B: Declarative<'buf>, C: Declarative<'buf>, D: Declarative<'buf>, E: Declarative<'buf>, F: Declarative<'buf>, G: Declarative<'buf>, H: Declarative<'buf>, I: Declarative<'buf>, J: Declarative<'buf>> Declarative<'buf> for (A, B, C, D, E, F, G, H, I, J) {
    /// Decodes the elements in order, each after the bytes of the one
    /// before, and stops at the first failure.
    open spec fn spec_parse(buffer: Seq<u8>) -> Result<((A::V, B::V, C::V, D::V, E::V, F::V, G::V, H::V, I::V, J::V), nat), Error> {
        match A::spec_parse(buffer) {
            Err(e) => Err(e),
            Ok((v0, n0)) => {
                let b1 = buffer.skip(n0 as int);
                match B::spec_parse(b1) {
                    Err(e) => Err(e),
                    Ok((v1, n1)) => {
                        let b2 = b1.skip(n1 as int);
                        match C::spec_parse(b2) {
                            Err(e) => Err(e),
                            Ok((v2, n2)) => {
                                let b3 = b2.skip(n2 as int);
                                match D::spec_parse(b3) {
                                    Err(e) => Err(e),
                                    Ok((v3, n3)) => {
                                        let b4 = b3.skip(n3 as int);
                                        match E::spec_parse(b4) {
                                            Err(e) => Err(e),
                                            Ok((v4, n4)) => {
                                                let b5 = b4.skip(n4 as int);
                                                match F::spec_parse(b5) {
                                                    Err(e) => Err(e),
                                                    Ok((v5, n5)) => {
                                                        let b6 = b5.skip(n5 as int);
                                                        match G::spec_parse(b6) {
                                                            Err(e) => Err(e),
                                                            Ok((v6, n6)) => {
                                                                let b7 = b6.skip(n6 as int);
                                                                match H::spec_parse(b7) {
                                                                    Err(e) => Err(e),
                                                                    Ok((v7, n7)) => {
                                                                        let b8 = b7.skip(n7 as int);
                                                                        match I::spec_parse(b8) {
                                                                            Err(e) => Err(e),
                                                                            Ok((v8, n8)) => {
                                                                                let b9 = b8.skip(n8 as int);
                                                                                match J::spec_parse(b9) {
                                                                                    Err(e) => Err(e),
                                                                                    Ok((v9, n9)) => {
                                                                                        Ok(((v0, v1, v2, v3, v4, v5, v6, v7, v8, v9), n0 + n1 + n2 + n3 + n4 + n5 + n6 + n7 + n8 + n9))
                                                                                    },
                                                                                }
                                                                            },
                                                                        }
                                                                    },
                                                                }
                                                            },
                                                        }
                                                    },
                                                }
                                            },
                                        }
                                    },
                                }
                            },
                        }
                    },
                }
            },
        }
    }

    fn parse(buffer: &'buf [u8]) -> (r: DeclResult<'buf, Self>) {
        let mut cursor = buffer;
        let v0 = match DeclRead::parse::<A>(&mut cursor) {
            Ok(v) => v,
            Err(e) => return Err(e),
        };
        let v1 = match DeclRead::parse::<B>(&mut cursor) {
            Ok(v) => v,
            Err(e) => return Err(e),
        };
        let v2 = match DeclRead::parse::<C>(&mut cursor) {
            Ok(v) => v,
            Err(e) => return Err(e),
        };
        let v3 = match DeclRead::parse::<D>(&mut cursor) {
            Ok(v) => v,
            Err(e) => return Err(e),
        };
        let v4 = match DeclRead::parse::<E>(&mut cursor) {
            Ok(v) => v,
            Err(e) => return Err(e),
        };
        let v5 = match DeclRead::parse::<F>(&mut cursor) {
            Ok(v) => v,
            Err(e) => return Err(e),
        };
        let v6 = match DeclRead::parse::<G>(&mut cursor) {
            Ok(v) => v,
            Err(e) => return Err(e),
        };
        let v7 = match DeclRead::parse::<H>(&mut cursor) {
            Ok(v) => v,
            Err(e) => return Err(e),
        };
        let v8 = match DeclRead::parse::<I>(&mut cursor) {
            Ok(v) => v,
            Err(e) => return Err(e),
        };
        let v9 = match DeclRead::parse::<J>(&mut cursor) {
            Ok(v) => v,
            Err(e) => return Err(e),
        };
        assert(cursor@ =~= buffer@.skip(buffer@.len() - cursor@.len()));
        Ok(((v0, v1, v2, v3, v4, v5, v6, v7, v8, v9), cursor))
    }
}

impl<'buf, A: Declarative<'buf>, B: Declarative<'buf>, C: Declarative<'buf>, D: Declarative<'buf>, E: Declarative<'buf>, F: Declarative<'buf>, G: Declarative<'buf>, H: Declarative<'buf>, I: Declarative<'buf>, J: Declarative<'buf>, K: Declarative<'buf>> Declarative<'buf> for (A, B, C, D, E, F, G, H, I, J, K) {
    /// Decodes the elements in order, each after the bytes of the one
    /// before, and stops at the first failure.
    open spec fn spec_parse(buffer: Seq<u8>) -> Result<((A::V, B::V, C::V, D::V, E::V, F::V, G::V, H::V, I::V, J::V, K::V), nat), Error> {
        match A::spec_parse(buffer) {
            Err(e) => Err(e),
            Ok((v0, n0)) => {
                let b1 = buffer.skip(n0 as int);
                match B::spec_parse(b1) {
                    Err(e) => Err(e),
                    Ok((v1, n1)) => {
                        let b2 = b1.skip(n1 as int);
                        match C::spec_parse(b2) {
                            Err(e) => Err(e),
                            Ok((v2, n2)) => {
                                let b3 = b2.skip(n2 as int);
                                match D::spec_parse(b3) {
                                    Err(e) => Err(e),
                                    Ok((v3, n3)) => {
                                        let b4 = b3.skip(n3 as int);
                                        match E::spec_parse(b4) {
                                            Err(e) => Err(e),
                                            Ok((v4, n4)) => {
                                                let b5 = b4.skip(n4 as int);
                                                match F::spec_parse(b5) {
                                                    Err(e) => Err(e),
                                                    Ok((v5, n5)) => {
                                                        let b6 = b5.skip(n5 as int);
                                                        match G::spec_parse(b6) {
                                                            Err(e) => Err(e),
                                                            Ok((v6, n6)) => {
                                                                let b7 = b6.skip(n6 as int);
                                                                match H::spec_parse(b7) {
                                                                    Err(e) => Err(e),
                                                                    Ok((v7, n7)) => {
                                                                        let b8 = b7.skip(n7 as int);
                                                                        match I::spec_parse(b8) {
                                                                            Err(e) => Err(e),
                                                                            Ok((v8, n8)) => {
                                                                                let b9 = b8.skip(n8 as int);
                                                                                match J::spec_parse(b9) {
                                                                                    Err(e) => Err(e),
                                                                                    Ok((v9, n9)) => {
                                                                                        let b10 = b9.skip(n9 as int);
                                                                                        match K::spec_parse(b10) {
                                                                                            Err(e) => Err(e),
                                                                                            Ok((v10, n10)) => {
                                                                                                Ok(((v0, v1, v2, v3, v4, v5, v6, v7, v8, v9, v10), n0 + n1 + n2 + n3 + n4 + n5 + n6 + n7 + n8 + n9 + n10))
                                                                                            },
                                                                                        }
                                                                                    },
                                                                                }
                                                                            },
                                                                        }
                                                                    },
                                                                }
                                                            },
                                                        }
                                                    },
                                                }
                                            },
                                        }
                                    },
                                }
                            },
                        }
                    },
                }
            },
        }
    }

    fn parse(buffer: &'buf [u8]) -> (r: DeclResult<'buf, Self>) {
        let mut cursor = buffer;
        let v0 = match DeclRead::parse::<A>(&mut cursor) {
            Ok(v) => v,
            Err(e) => return Err(e),
        };
        let v1 = match DeclRead::parse::<B>(&mut cursor) {
            Ok(v) => v,
            Err(e) => return Err(e),
        };
        let v2 = match DeclRead::parse::<C>(&mut cursor) {
            Ok(v) => v,
            Err(e) => return Err(e),
        };
        let v3 = match DeclRead::parse::<D>(&mut cursor) {
            Ok(v) => v,
            Err(e) => return Err(e),
        };
        let v4 = match DeclRead::parse::<E>(&mut cursor) {
            Ok(v) => v,
            Err(e) => return Err(e),
        };
        let v5 = match DeclRead::parse::<F>(&mut cursor) {
            Ok(v) => v,
            Err(e) => return Err(e),
        };
        let v6 = match DeclRead::parse::<G>(&mut cursor) {
            Ok(v) => v,
            Err(e) => return Err(e),
        };
        let v7 = match DeclRead::parse::<H>(&mut cursor) {
            Ok(v) => v,
            Err(e) => return Err(e),
        };
        let v8 = match DeclRead::parse::<I>(&mut cursor) {
            Ok(v) => v,
            Err(e) => return Err(e),
        };
        let v9 = match DeclRead::parse::<J>(&mut cursor) {
            Ok(v) => v,
            Err(e) => return Err(e),
        };
        let v10 = match DeclRead::parse::<K>(&mut cursor) {
            Ok(v) => v,
            Err(e) => return Err(e),
        };
        assert(cursor@ =~= buffer@.skip(buffer@.len() - cursor@.len()));
        Ok(((v0, v1, v2, v3, v4, v5, v6, v7, v8, v9, v10), cursor))
    }
}

impl<'buf, A: Declarative<'buf>, B: Declarative<'buf>, C: Declarative<'buf>, D: Declarative<'buf>, E: Declarative<'buf>, F: Declarative<'buf>, G: Declarative<'buf>, H: Declarative<'buf>, I: Declarative<'buf>, J: Declarative<'buf>, K: Declarative<'buf>, L: Declarative<'buf>> Declarative<'buf> for (A, B, C, D, E, F, G, H, I, J, K, L) {
    /// Decodes the elements in order, each after the bytes of the one
    /// before, and stops at the first failure.
    open spec fn spec_parse(buffer: Seq<u8>) -> Result<((A::V, B::V, C::V, D::V, E::V, F::V, G::V, H::V, I::V, J::V, K::V, L::V), nat), Error> {
        match A::spec_parse(buffer) {
            Err(e) => Err(e),
            Ok((v0, n0)) => {
                let b1 = buffer.skip(n0 as int);
                match B::spec_parse(b1) {
                    Err(e) => Err(e),
                    Ok((v1, n1)) => {
                        let b2 = b1.skip(n1 as int);
                        match C::spec_parse(b2) {
                            Err(e) => Err(e),
                            Ok((v2, n2)) => {
                                let b3 = b2.skip(n2 as int);
                                match D::spec_parse(b3) {
                                    Err(e) => Err(e),
                                    Ok((v3, n3)) => {
                                        let b4 = b3.skip(n3 as int);
                                        match E::spec_parse(b4) {
                                            Err(e) => Err(e),
                                            Ok((v4, n4)) => {
                                                let b5 = b4.skip(n4 as int);
                                                match F::spec_parse(b5) {
                                                    Err(e) => Err(e),
                                                    Ok((v5, n5)) => {
                                                        let b6 = b5.skip(n5 as int);
                                                        match G::spec_parse(b6) {
                                                            Err(e) => Err(e),
                                                            Ok((v6, n6)) => {
                                                                let b7 = b6.skip(n6 as int);
                                                                match H::spec_parse(b7) {
                                                                    Err(e) => Err(e),
                                                                    Ok((v7, n7)) => {
                                                                        let b8 = b7.skip(n7 as int);
                                                                        match I::spec_parse(b8) {
                                                                            Err(e) => Err(e),
                                                                            Ok((v8, n8)) => {
                                                                                let b9 = b8.skip(n8 as int);
                                                                                match J::spec_parse(b9) {
                                                                                    Err(e) => Err(e),
                                                                                    Ok((v9, n9)) => {
                                                                                        let b10 = b9.skip(n9 as int);
                                                                                        match K::spec_parse(b10) {
                                                                                            Err(e) => Err(e),
                                                                                            Ok((v10, n10)) => {
                                                                                                let b11 = b10.skip(n10 as int);
                                                                                                match L::spec_parse(b11) {
                                                                                                    Err(e) => Err(e),
                                                                                                    Ok((v11, n11)) => {
                                                                                                        Ok(((v0, v1, v2, v3, v4, v5, v6, v7, v8, v9, v10, v11), n0 + n1 + n2 + n3 + n4 + n5 + n6 + n7 + n8 + n9 + n10 + n11))
                                                                                                    },
                                                                                                }
                                                                                            },
                                                                                        }
                                                                                    },
                                                                                }
                                                                            },
                                                                        }
                                                                    },
                                                                }
                                                            },
                                                        }
                                                    },
                                                }
                                            },
                                        }
                                    },
                                }
                            },
                        }
                    },
                }
            },
        }
    }

    fn parse(buffer: &'buf [u8]) -> (r: DeclResult<'buf, Self>) {
        let mut cursor = buffer;
        let v0 = match DeclRead::parse::<A>(&mut cursor) {
            Ok(v) => v,
            Err(e) => return Err(e),
        };
        let v1 = match DeclRead::parse::<B>(&mut cursor) {
            Ok(v) => v,
            Err(e) => return Err(e),
        };
        let v2 = match DeclRead::parse::<C>(&mut cursor) {
            Ok(v) => v,
            Err(e) => return Err(e),
        };
        let v3 = match DeclRead::parse::<D>(&mut cursor) {
            Ok(v) => v,
            Err(e) => return Err(e),
        };
        let v4 = match DeclRead::parse::<E>(&mut cursor) {
            Ok(v) => v,
            Err(e) => return Err(e),
        };
        let v5 = match DeclRead::parse::<F>(&mut cursor) {
            Ok(v) => v,
            Err(e) => return Err(e),
        };
        let v6 = match DeclRead::parse::<G>(&mut cursor) {
            Ok(v) => v,
            Err(e) => return Err(e),
        };
        let v7 = match DeclRead::parse::<H>(&mut cursor) {
            Ok(v) => v,
            Err(e) => return Err(e),
        };
        let v8 = match DeclRead::parse::<I>(&mut cursor) {
            Ok(v) => v,
            Err(e) => return Err(e),
        };
        let v9 = match DeclRead::parse::<J>(&mut cursor) {
            Ok(v) => v,
            Err(e) => return Err(e),
        };
        let v10 = match DeclRead::parse::<K>(&mut cursor) {
            Ok(v) => v,
            Err(e) => return Err(e),
        };
        let v11 = match DeclRead::parse::<L>(&mut cursor) {
            Ok(v) => v,
            Err(e) => return Err(e),
        };
        assert(cursor@ =~= buffer@.skip(buffer@.len() - cursor@.len()));
        Ok(((v0, v1, v2, v3, v4, v5, v6, v7, v8, v9, v10, v11), cursor))
    }
}

} // verus!
