//! The decode contracts, the cursor that threads a shrinking buffer
//! through successive decodes, and literal tags.

use vstd::prelude::*;

use crate::array::Array;
use crate::error::Error;
use vstd::slice::slice_subrange;
use vstd::string::StringSliceAdditionalSpecFns;

verus! {

/// A decoded value together with the part of the buffer that follows it.
pub type DeclResult<'buf, T> = Result<(T, &'buf [u8]), Error>;

/// Whether the executable outcome `r` of a decode over `buffer` agrees with
/// the mathematical outcome `expected` (the value's view and the number of
/// bytes consumed, or the error).
pub open spec fn outcome_matches<'a, T: View>(
    buffer: Seq<u8>,
    expected: Result<(T::V, nat), Error>,
    r: Result<(T, &'a [u8]), Error>,
) -> bool {
    match (expected, r) {
        (Ok((v, n)), Ok((x, rest))) => x@ == v && n <= buffer.len() && rest@ == buffer.skip(n as int),
        (Err(e1), Err(e2)) => e1 == e2,
        _ => false,
    }
}

/// Implemented on types whose encoded width is known before decoding.
pub trait StaticEncodingSize {
    /// The encoded width in bytes.
    spec fn spec_size() -> nat;

    /// The encoded width in bytes.
    fn static_size() -> (r: usize)
        ensures
            r as nat == Self::spec_size(),
    ;
}

/// Implemented on types whose encoded width is known once a value exists.
pub trait DynamicEncodingSize {
    /// The encoded width of this value in bytes.
    spec fn spec_encoding_size(&self) -> nat;

    fn size(&self) -> (r: usize)
        requires
            self.spec_encoding_size() <= usize::MAX,
        ensures
            r as nat == self.spec_encoding_size(),
    ;
}

impl<T: StaticEncodingSize> DynamicEncodingSize for T {
    open spec fn spec_encoding_size(&self) -> nat {
        T::spec_size()
    }

    fn size(&self) -> (r: usize) {
        T::static_size()
    }
}

/// A decode contract that needs nothing beyond the bytes.
pub trait Declarative<'buf>: Sized + View {
    /// The outcome of decoding `buffer`: the value's view and the number of
    /// bytes consumed, or the error.
    spec fn spec_parse(buffer: Seq<u8>) -> Result<(Self::V, nat), Error>;

    fn parse(buffer: &'buf [u8]) -> (r: DeclResult<'buf, Self>)
        ensures
            outcome_matches(buffer@, Self::spec_parse(buffer@), r),
    ;
}

/// A decode contract that takes an explicit argument besides the bytes.
pub trait DeclarativeWithArgs<'buf>: Sized + View {
    type Argument;

    /// The outcome of decoding `buffer` with `argument`: the value's view
    /// and the number of bytes consumed, or the error.
    spec fn spec_parse_with(buffer: Seq<u8>, argument: Self::Argument) -> Result<(Self::V, nat), Error>;

    fn parse_with(buffer: &'buf [u8], argument: Self::Argument) -> (r: DeclResult<'buf, Self>)
        ensures
            outcome_matches(buffer@, Self::spec_parse_with(buffer@, argument), r),
    ;
}

impl<'buf, T: Declarative<'buf>> DeclarativeWithArgs<'buf> for T {
    type Argument = ();

    open spec fn spec_parse_with(buffer: Seq<u8>, argument: ()) -> Result<(T::V, nat), Error> {
        T::spec_parse(buffer)
    }

    fn parse_with(buffer: &'buf [u8], argument: ()) -> (r: DeclResult<'buf, T>) {
        T::parse(buffer)
    }
}


/// Decoding is a function of the bytes and the argument alone: two decodes
/// of the same buffer with the same argument agree on success, on the
/// value, on the bytes left over and on the error.
pub proof fn lemma_parse_deterministic<'a, 'buf, T: DeclarativeWithArgs<'buf>>(
    buffer: Seq<u8>,
    argument: T::Argument,
    r1: DeclResult<'a, T>,
    r2: DeclResult<'a, T>,
)
    requires
        outcome_matches(buffer, T::spec_parse_with(buffer, argument), r1),
        outcome_matches(buffer, T::spec_parse_with(buffer, argument), r2),
    ensures
        r1 is Ok <==> r2 is Ok,
        r1 is Ok ==> r1->Ok_0.0@ == r2->Ok_0.0@ && r1->Ok_0.1@ == r2->Ok_0.1@,
        r1 is Err ==> r1 == r2,
{
}

/// Whether the executable outcome `r` of a decode through a cursor that
/// held `before` and holds `after` agrees with the mathematical outcome
/// `expected`: on success the cursor moves past the consumed bytes, on
/// failure it stays where it was.
pub open spec fn cursor_matches<T: View>(
    before: Seq<u8>,
    expected: Result<(T::V, nat), Error>,
    r: Result<T, Error>,
    after: Seq<u8>,
) -> bool {
    match (expected, r) {
        (Ok((v, n)), Ok(x)) => x@ == v && n <= before.len() && after == before.skip(n as int),
        (Err(e1), Err(e2)) => e1 == e2 && after == before,
        _ => false,
    }
}

/// The outcome of checking a literal of `len` bytes against `buffer`:
/// the number of bytes consumed, or the error.
pub open spec fn tag_outcome(buffer: Seq<u8>, len: nat, matches: bool) -> Result<nat, Error> {
    if buffer.len() < len {
        Err(Error::InsufficientBytes)
    } else if matches {
        Ok(len)
    } else {
        Err(Error::TagMismatch)
    }
}

/// A literal expected at the cursor: a string, a byte string or a number.
pub trait Tag {
    /// The literal's encoded width in bytes.
    spec fn spec_tag_len(&self) -> nat;

    /// Whether `prefix`, of the literal's width, encodes the literal.
    spec fn spec_tag_matches(&self, prefix: Seq<u8>) -> bool;

    /// Checks the literal against the start of `buffer` and returns what
    /// follows it.
    fn validate<'b>(&self, buffer: &'b [u8]) -> (r: Result<&'b [u8], Error>)
        ensures
            match (tag_outcome(buffer@, self.spec_tag_len(), self.spec_tag_matches(buffer@.take(self.spec_tag_len() as int))), r) {
                (Ok(n), Ok(rest)) => rest@ == buffer@.skip(n as int),
                (Err(e1), Err(e2)) => e1 == e2,
                _ => false,
            },
    ;
}

/// Whether `buffer` starts with `expected`.
fn starts_with(buffer: &[u8], expected: &[u8]) -> (r: bool)
    requires
        buffer@.len() >= expected@.len(),
    ensures
        r == (buffer@.take(expected@.len() as int) == expected@),
{
    let n = expected.len();
    let mut i: usize = 0;
    while i < n
        invariant
            n == expected@.len(),
            buffer@.len() >= n,
            i <= n,
            forall|j: int| 0 <= j < i ==> buffer@[j] == expected@[j],
        decreases n - i,
    {
        if buffer[i] != expected[i] {
            assert(buffer@.take(n as int)[i as int] != expected@[i as int]);
            return false;
        }
        i = i + 1;
    }
    assert(buffer@.take(n as int) =~= expected@);
    true
}

/// Checks `expected` against the start of `buffer`.
fn validate_bytes<'b>(expected: &[u8], buffer: &'b [u8]) -> (r: Result<&'b [u8], Error>)
    ensures
        match (tag_outcome(buffer@, expected@.len(), buffer@.take(expected@.len() as int) == expected@), r) {
            (Ok(n), Ok(rest)) => rest@ == buffer@.skip(n as int),
            (Err(e1), Err(e2)) => e1 == e2,
            _ => false,
        },
{
    if buffer.len() < expected.len() {
        return Err(Error::InsufficientBytes);
    }
    if starts_with(buffer, expected) {
        Ok(slice_subrange(buffer, expected.len(), buffer.len()))
    } else {
        Err(Error::TagMismatch)
    }
}

impl Tag for str {
    open spec fn spec_tag_len(&self) -> nat {
        self.spec_bytes().len()
    }

    open spec fn spec_tag_matches(&self, prefix: Seq<u8>) -> bool {
        prefix == self.spec_bytes()
    }

    fn validate<'b>(&self, buffer: &'b [u8]) -> (r: Result<&'b [u8], Error>) {
        validate_bytes(self.as_bytes(), buffer)
    }
}

impl Tag for [u8] {
    open spec fn spec_tag_len(&self) -> nat {
        self@.len()
    }

    open spec fn spec_tag_matches(&self, prefix: Seq<u8>) -> bool {
        prefix == self@
    }

    fn validate<'b>(&self, buffer: &'b [u8]) -> (r: Result<&'b [u8], Error>) {
        validate_bytes(self, buffer)
    }
}

/// A cursor over a byte buffer: each successful decode moves it past the
/// bytes it consumed, and a failed one leaves it where it was.
pub trait DeclRead<'buf>: Sized + View<V = Seq<u8>> {
    fn parse<T: Declarative<'buf>>(&mut self) -> (r: Result<T, Error>)
        ensures
            cursor_matches(old(self)@, T::spec_parse(old(self)@), r, final(self)@),
    ;

    fn parse_with<T: DeclarativeWithArgs<'buf>>(&mut self, argument: T::Argument) -> (r: Result<T, Error>)
        ensures
            cursor_matches(old(self)@, T::spec_parse_with(old(self)@, argument), r, final(self)@),
    ;

    /// Captures an array of `length` items at the cursor. The cursor stays
    /// where it is: the array's bytes are not consumed.
    fn parse_array<T: Declarative<'buf> + StaticEncodingSize>(&mut self, length: usize) -> (r: Result<
        Array<'buf, T>,
        Error,
    >)
        ensures
            r is Ok,
            r->Ok_0@ == (old(self)@, length, ()),
            final(self)@ == old(self)@,
    ;

    /// Captures an array of `length` items, each decoded with `argument`,
    /// at the cursor. The cursor stays where it is.
    fn parse_array_with<T: DeclarativeWithArgs<'buf> + StaticEncodingSize>(
        &mut self,
        length: usize,
        argument: T::Argument,
    ) -> (r: Result<Array<'buf, T>, Error>)
        ensures
            r is Ok,
            r->Ok_0@ == (old(self)@, length, argument),
            final(self)@ == old(self)@,
    ;

    /// Checks a literal at the cursor and moves past it.
    fn tag<T: Tag + ?Sized>(&mut self, tag: &T) -> (r: Result<&'buf [u8], Error>)
        ensures
            match (tag_outcome(old(self)@, tag.spec_tag_len(), tag.spec_tag_matches(old(self)@.take(tag.spec_tag_len() as int))), r) {
                (Ok(n), Ok(rest)) => rest@ == old(self)@.skip(n as int) && final(self)@ == rest@,
                (Err(e1), Err(e2)) => e1 == e2 && final(self)@ == old(self)@,
                _ => false,
            },
    ;
}

impl<'buf> DeclRead<'buf> for &'buf [u8] {
    fn parse<T: Declarative<'buf>>(&mut self) -> (r: Result<T, Error>) {
        match T::parse(*self) {
            Ok((result, rest)) => {
                *self = rest;
                Ok(result)
            },
            Err(e) => Err(e),
        }
    }

    fn parse_with<T: DeclarativeWithArgs<'buf>>(&mut self, argument: T::Argument) -> (r: Result<T, Error>) {
        match T::parse_with(*self, argument) {
            Ok((result, rest)) => {
                *self = rest;
                Ok(result)
            },
            Err(e) => Err(e),
        }
    }

    fn parse_array<T: Declarative<'buf> + StaticEncodingSize>(&mut self, length: usize) -> (r: Result<
        Array<'buf, T>,
        Error,
    >) {
        match Array::<'buf, T>::parse_with(*self, (length, ())) {
            Ok((array, rest)) => {
                *self = rest;
                Ok(array)
            },
            Err(e) => Err(e),
        }
    }

    fn parse_array_with<T: DeclarativeWithArgs<'buf> + StaticEncodingSize>(
        &mut self,
        length: usize,
        argument: T::Argument,
    ) -> (r: Result<Array<'buf, T>, Error>) {
        match Array::<'buf, T>::parse_with(*self, (length, argument)) {
            Ok((array, rest)) => {
                *self = rest;
                Ok(array)
            },
            Err(e) => Err(e),
        }
    }

    fn tag<T: Tag + ?Sized>(&mut self, tag: &T) -> (r: Result<&'buf [u8], Error>) {
        match tag.validate(*self) {
            Ok(rest) => {
                *self = rest;
                Ok(rest)
            },
            Err(e) => Err(e),
        }
    }
}

} // verus!
