//! Offsets of 1, 2, 4 and 8 bytes that re-anchor a nested item inside a
//! reference region that the caller supplies.

use vstd::prelude::*;

use std::marker::PhantomData;

use crate::declarative::{DeclResult, Declarative, DeclarativeWithArgs, StaticEncodingSize};
use crate::error::Error;
use vstd::slice::slice_subrange;

verus! {

/// A `u8` that points into a caller-given reference region: the view
/// of the nested item's bytes from that position on, with its argument.
pub struct Offset8<'buf, Item: DeclarativeWithArgs<'buf>> {
    buffer: &'buf [u8],
    argument: Item::Argument,
    phantom: PhantomData<Item>,
}

impl<'buf, Item: DeclarativeWithArgs<'buf>> View for Offset8<'buf, Item> {
    /// The referenced bytes and the nested item's argument.
    type V = (Seq<u8>, Item::Argument);

    closed spec fn view(&self) -> (Seq<u8>, Item::Argument) {
        (self.buffer@, self.argument)
    }
}

impl<'buf, Item: DeclarativeWithArgs<'buf>> Offset8<'buf, Item> {
    /// The referenced bytes, from the offset to the end of the region.
    pub fn target(&self) -> (r: &'buf [u8])
        ensures
            r@ == self@.0,
    {
        self.buffer
    }

    /// Decodes the nested item at the referenced position.
    pub fn resolve(&self) -> (r: DeclResult<'buf, Item>)
        where
            Item::Argument: Copy,
        ensures
            crate::declarative::outcome_matches(self@.0, Item::spec_parse_with(self@.0, self@.1), r),
    {
        Item::parse_with(self.buffer, self.argument)
    }
}

impl<'buf, Item: DeclarativeWithArgs<'buf>> DeclarativeWithArgs<'buf> for Offset8<'buf, Item> {
    type Argument = (&'buf [u8], Item::Argument);

    /// Reads the offset, rejects one beyond the end of the reference
    /// region, and re-anchors the nested item there.
    open spec fn spec_parse_with(buffer: Seq<u8>, argument: (&'buf [u8], Item::Argument)) -> Result<
        ((Seq<u8>, Item::Argument), nat),
        Error,
    > {
        match u8::spec_parse(buffer) {
            Err(e) => Err(e),
            Ok((offset, n)) => if argument.0@.len() < offset {
                Err(Error::InsufficientBytes)
            } else {
                Ok(((argument.0@.skip(offset as int), argument.1), n))
            },
        }
    }

    fn parse_with(buffer: &'buf [u8], argument: (&'buf [u8], Item::Argument)) -> (r: DeclResult<'buf, Self>) {
        let (offset, rest) = match u8::parse(buffer) {
            Ok(p) => p,
            Err(e) => return Err(e),
        };
        let (region, inner) = argument;
        if (region.len() as u64) < (offset as u64) {
            return Err(Error::InsufficientBytes);
        }
        let target = slice_subrange(region, offset as usize, region.len());
        Ok((Offset8 { buffer: target, argument: inner, phantom: PhantomData }, rest))
    }
}

impl<'buf, Item: DeclarativeWithArgs<'buf>> StaticEncodingSize for Offset8<'buf, Item> {
    open spec fn spec_size() -> nat {
        1
    }

    fn static_size() -> (r: usize) {
        1
    }
}

/// A `u16` that points into a caller-given reference region: the view
/// of the nested item's bytes from that position on, with its argument.
pub struct Offset16<'buf, Item: DeclarativeWithArgs<'buf>> {
    buffer: &'buf [u8],
    argument: Item::Argument,
    phantom: PhantomData<Item>,
}

impl<'buf, Item: DeclarativeWithArgs<'buf>> View for Offset16<'buf, Item> {
    /// The referenced bytes and the nested item's argument.
    type V = (Seq<u8>, Item::Argument);

    closed spec fn view(&self) -> (Seq<u8>, Item::Argument) {
        (self.buffer@, self.argument)
    }
}

impl<'buf, Item: DeclarativeWithArgs<'buf>> Offset16<'buf, Item> {
    /// The referenced bytes, from the offset to the end of the region.
    pub fn target(&self) -> (r: &'buf [u8])
        ensures
            r@ == self@.0,
    {
        self.buffer
    }

    /// Decodes the nested item at the referenced position.
    pub fn resolve(&self) -> (r: DeclResult<'buf, Item>)
        where
            Item::Argument: Copy,
        ensures
            crate::declarative::outcome_matches(self@.0, Item::spec_parse_with(self@.0, self@.1), r),
    {
        Item::parse_with(self.buffer, self.argument)
    }
}

impl<'buf, Item: DeclarativeWithArgs<'buf>> DeclarativeWithArgs<'buf> for Offset16<'buf, Item> {
    type Argument = (&'buf [u8], Item::Argument);

    /// Reads the offset, rejects one beyond the end of the reference
    /// region, and re-anchors the nested item there.
    open spec fn spec_parse_with(buffer: Seq<u8>, argument: (&'buf [u8], Item::Argument)) -> Result<
        ((Seq<u8>, Item::Argument), nat),
        Error,
    > {
        match u16::spec_parse(buffer) {
            Err(e) => Err(e),
            Ok((offset, n)) => if argument.0@.len() < offset {
                Err(Error::InsufficientBytes)
            } else {
                Ok(((argument.0@.skip(offset as int), argument.1), n))
            },
        }
    }

    fn parse_with(buffer: &'buf [u8], argument: (&'buf [u8], Item::Argument)) -> (r: DeclResult<'buf, Self>) {
        let (offset, rest) = match u16::parse(buffer) {
            Ok(p) => p,
            Err(e) => return Err(e),
        };
        let (region, inner) = argument;
        if (region.len() as u64) < (offset as u64) {
            return Err(Error::InsufficientBytes);
        }
        let target = slice_subrange(region, offset as usize, region.len());
        Ok((Offset16 { buffer: target, argument: inner, phantom: PhantomData }, rest))
    }
}

impl<'buf, Item: DeclarativeWithArgs<'buf>> StaticEncodingSize for Offset16<'buf, Item> {
    open spec fn spec_size() -> nat {
        2
    }

    fn static_size() -> (r: usize) {
        2
    }
}

/// A `u32` that points into a caller-given reference region: the view
/// of the nested item's bytes from that position on, with its argument.
pub struct Offset32<'buf, Item: DeclarativeWithArgs<'buf>> {
    buffer: &'buf [u8],
    argument: Item::Argument,
    phantom: PhantomData<Item>,
}

impl<'buf, Item: DeclarativeWithArgs<'buf>> View for Offset32<'buf, Item> {
    /// The referenced bytes and the nested item's argument.
    type V = (Seq<u8>, Item::Argument);

    closed spec fn view(&self) -> (Seq<u8>, Item::Argument) {
        (self.buffer@, self.argument)
    }
}

impl<'buf, Item: DeclarativeWithArgs<'buf>> Offset32<'buf, Item> {
    /// The referenced bytes, from the offset to the end of the region.
    pub fn target(&self) -> (r: &'buf [u8])
        ensures
            r@ == self@.0,
    {
        self.buffer
    }

    /// Decodes the nested item at the referenced position.
    pub fn resolve(&self) -> (r: DeclResult<'buf, Item>)
        where
            Item::Argument: Copy,
        ensures
            crate::declarative::outcome_matches(self@.0, Item::spec_parse_with(self@.0, self@.1), r),
    {
        Item::parse_with(self.buffer, self.argument)
    }
}

impl<'buf, Item: DeclarativeWithArgs<'buf>> DeclarativeWithArgs<'buf> for Offset32<'buf, Item> {
    type Argument = (&'buf [u8], Item::Argument);

    /// Reads the offset, rejects one beyond the end of the reference
    /// region, and re-anchors the nested item there.
    open spec fn spec_parse_with(buffer: Seq<u8>, argument: (&'buf [u8], Item::Argument)) -> Result<
        ((Seq<u8>, Item::Argument), nat),
        Error,
    > {
        match u32::spec_parse(buffer) {
            Err(e) => Err(e),
            Ok((offset, n)) => if argument.0@.len() < offset {
                Err(Error::InsufficientBytes)
            } else {
                Ok(((argument.0@.skip(offset as int), argument.1), n))
            },
        }
    }

    fn parse_with(buffer: &'buf [u8], argument: (&'buf [u8], Item::Argument)) -> (r: DeclResult<'buf, Self>) {
        let (offset, rest) = match u32::parse(buffer) {
            Ok(p) => p,
            Err(e) => return Err(e),
        };
        let (region, inner) = argument;
        if (region.len() as u64) < (offset as u64) {
            return Err(Error::InsufficientBytes);
        }
        let target = slice_subrange(region, offset as usize, region.len());
        Ok((Offset32 { buffer: target, argument: inner, phantom: PhantomData }, rest))
    }
}

impl<'buf, Item: DeclarativeWithArgs<'buf>> StaticEncodingSize for Offset32<'buf, Item> {
    open spec fn spec_size() -> nat {
        4
    }

    fn static_size() -> (r: usize) {
        4
    }
}

/// A `u64` that points into a caller-given reference region: the view
/// of the nested item's bytes from that position on, with its argument.
pub struct Offset64<'buf, Item: DeclarativeWithArgs<'buf>> {
    buffer: &'buf [u8],
    argument: Item::Argument,
    phantom: PhantomData<Item>,
}

impl<'buf, Item: DeclarativeWithArgs<'buf>> View for Offset64<'buf, Item> {
    /// The referenced bytes and the nested item's argument.
    type V = (Seq<u8>, Item::Argument);

    closed spec fn view(&self) -> (Seq<u8>, Item::Argument) {
        (self.buffer@, self.argument)
    }
}

impl<'buf, Item: DeclarativeWithArgs<'buf>> Offset64<'buf, Item> {
    /// The referenced bytes, from the offset to the end of the region.
    pub fn target(&self) -> (r: &'buf [u8])
        ensures
            r@ == self@.0,
    {
        self.buffer
    }

    /// Decodes the nested item at the referenced position.
    pub fn resolve(&self) -> (r: DeclResult<'buf, Item>)
        where
            Item::Argument: Copy,
        ensures
            crate::declarative::outcome_matches(self@.0, Item::spec_parse_with(self@.0, self@.1), r),
    {
        Item::parse_with(self.buffer, self.argument)
    }
}

impl<'buf, Item: DeclarativeWithArgs<'buf>> DeclarativeWithArgs<'buf> for Offset64<'buf, Item> {
    type Argument = (&'buf [u8], Item::Argument);

    /// Reads the offset, rejects one beyond the end of the reference
    /// region, and re-anchors the nested item there.
    open spec fn spec_parse_with(buffer: Seq<u8>, argument: (&'buf [u8], Item::Argument)) -> Result<
        ((Seq<u8>, Item::Argument), nat),
        Error,
    > {
        match u64::spec_parse(buffer) {
            Err(e) => Err(e),
            Ok((offset, n)) => if argument.0@.len() < offset {
                Err(Error::InsufficientBytes)
            } else {
                Ok(((argument.0@.skip(offset as int), argument.1), n))
            },
        }
    }

    fn parse_with(buffer: &'buf [u8], argument: (&'buf [u8], Item::Argument)) -> (r: DeclResult<'buf, Self>) {
        let (offset, rest) = match u64::parse(buffer) {
            Ok(p) => p,
            Err(e) => return Err(e),
        };
        let (region, inner) = argument;
        if (region.len() as u64) < (offset as u64) {
            return Err(Error::InsufficientBytes);
        }
        let target = slice_subrange(region, offset as usize, region.len());
        Ok((Offset64 { buffer: target, argument: inner, phantom: PhantomData }, rest))
    }
}

impl<'buf, Item: DeclarativeWithArgs<'buf>> StaticEncodingSize for Offset64<'buf, Item> {
    open spec fn spec_size() -> nat {
        8
    }

    fn static_size() -> (r: usize) {
        8
    }
}

} // verus!
