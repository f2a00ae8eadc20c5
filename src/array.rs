//! Arrays of known count, walked lazily, and slices of unknown extent.

use vstd::prelude::*;

use std::marker::PhantomData;

use crate::declarative::{
    cursor_matches, DeclRead, DeclResult, DeclarativeWithArgs, DynamicEncodingSize,
    StaticEncodingSize,
};
use crate::error::Error;

verus! {

/// A view over `length` consecutive items that starts at a captured
/// position of the buffer. Its items are decoded lazily, one by one.
pub struct Array<'buf, Item: DeclarativeWithArgs<'buf>> {
    buffer: &'buf [u8],
    length: usize,
    argument: Item::Argument,
    phantom: PhantomData<Item>,
}

impl<'buf, Item: DeclarativeWithArgs<'buf>> View for Array<'buf, Item> {
    /// The bytes from the captured position on, the item count and the
    /// argument that each item is decoded with.
    type V = (Seq<u8>, usize, Item::Argument);

    closed spec fn view(&self) -> (Seq<u8>, usize, Item::Argument) {
        (self.buffer@, self.length, self.argument)
    }
}

impl<'buf, Item: DeclarativeWithArgs<'buf>> Array<'buf, Item> {
    /// The number of items.
    pub fn len(&self) -> (r: usize)
        ensures
            r == self@.1,
    {
        self.length
    }
}

impl<'buf, Item: DeclarativeWithArgs<'buf>> DeclarativeWithArgs<'buf> for Array<'buf, Item> {
    type Argument = (usize, Item::Argument);

    /// Captures the position without consuming or checking any byte.
    open spec fn spec_parse_with(buffer: Seq<u8>, argument: (usize, Item::Argument)) -> Result<
        ((Seq<u8>, usize, Item::Argument), nat),
        Error,
    > {
        Ok(((buffer, argument.0, argument.1), 0))
    }

    fn parse_with(buffer: &'buf [u8], argument: (usize, Item::Argument)) -> (r: DeclResult<'buf, Self>) {
        let a = Array { buffer, length: argument.0, argument: argument.1, phantom: PhantomData };
        assert(buffer@.skip(0) =~= buffer@);
        Ok((a, buffer))
    }
}

impl<'buf, Item: StaticEncodingSize + DeclarativeWithArgs<'buf>> DynamicEncodingSize for Array<
    'buf,
    Item,
> {
    closed spec fn spec_encoding_size(&self) -> nat {
        Item::spec_size() * (self.length as nat)
    }

    fn size(&self) -> (r: usize) {
        Item::static_size() * self.length
    }
}

/// The bytes that remain for item `i` when the items of an array that
/// starts at `start` are decoded one after another with `argument`: each
/// success moves past what it consumed.
pub open spec fn iter_remaining<'buf, Item: DeclarativeWithArgs<'buf>>(
    start: Seq<u8>,
    argument: Item::Argument,
    i: nat,
) -> Seq<u8>
    decreases i,
{
    if i == 0 {
        start
    } else {
        let prev = iter_remaining::<Item>(start, argument, (i - 1) as nat);
        match Item::spec_parse_with(prev, argument) {
            Ok((_, n)) => prev.skip(n as int),
            Err(_) => prev,
        }
    }
}

/// The outcome of decoding item `i` of an array that starts at `start`.
pub open spec fn iter_item<'buf, Item: DeclarativeWithArgs<'buf>>(
    start: Seq<u8>,
    argument: Item::Argument,
    i: nat,
) -> Result<(Item::V, nat), Error> {
    Item::spec_parse_with(iter_remaining::<Item>(start, argument, i), argument)
}

/// Whether every successful decode of `Item` consumes exactly its static
/// width, out of a buffer that holds at least that many bytes.
pub open spec fn consumes_static_size<'buf, Item: StaticEncodingSize + DeclarativeWithArgs<'buf>>() -> bool {
    forall|b: Seq<u8>, a: Item::Argument|
        #[trigger] Item::spec_parse_with(b, a) is Ok ==> Item::spec_parse_with(b, a)->Ok_0.1
            == Item::spec_size() && Item::spec_size() <= b.len()
}

/// In an array of items of static width `W`, as long as the items before
/// it were decoded, item `i` is what decoding an item directly at offset
/// `i * W` from the array's start gives.
pub proof fn lemma_array_item_at_offset<'buf, Item: StaticEncodingSize + DeclarativeWithArgs<'buf>>(
    start: Seq<u8>,
    argument: Item::Argument,
    i: nat,
)
    requires
        consumes_static_size::<Item>(),
        forall|j: nat| j < i ==> (#[trigger] iter_item::<Item>(start, argument, j)) is Ok,
    ensures
        i * Item::spec_size() <= start.len(),
        iter_remaining::<Item>(start, argument, i) == start.skip((i * Item::spec_size()) as int),
        iter_item::<Item>(start, argument, i) == Item::spec_parse_with(
            start.skip((i * Item::spec_size()) as int),
            argument,
        ),
    decreases i,
{
    let w = Item::spec_size();
    if i == 0 {
        assert(start.skip(0) =~= start);
    } else {
        let k = (i - 1) as nat;
        lemma_array_item_at_offset::<Item>(start, argument, k);
        assert(iter_item::<Item>(start, argument, k) is Ok);
        let prev = iter_remaining::<Item>(start, argument, k);
        assert(Item::spec_parse_with(prev, argument) is Ok);
        assert(Item::spec_parse_with(prev, argument)->Ok_0.1 == w);
        assert(k * w + w == i * w) by (nonlinear_arith)
            requires
                k + 1 == i,
        ;
        assert(iter_remaining::<Item>(start, argument, i) =~= start.skip((i * w) as int));
    }
}

impl<'buf, Item: StaticEncodingSize + DeclarativeWithArgs<'buf>> Array<'buf, Item> where
    Item::Argument: Copy,
 {
    /// Starts a lazy walk over the items.
    pub fn into_iter(self) -> (r: ArrayIter<'buf, Item>)
        ensures
            r.wf(),
            r.spec_start() == self@.0,
            r.spec_length() == self@.1,
            r.spec_argument() == self@.2,
            r.spec_cursor() == 0,
    {
        ArrayIter {
            buffer: self.buffer,
            length: self.length,
            argument: self.argument,
            cursor: 0,
            start: Ghost(self.buffer@),
            phantom: PhantomData,
        }
    }
}

/// A lazy walk over the items of an `Array`.
pub struct ArrayIter<'buf, Item: DeclarativeWithArgs<'buf>> {
    buffer: &'buf [u8],
    length: usize,
    argument: Item::Argument,
    cursor: usize,
    start: Ghost<Seq<u8>>,
    phantom: PhantomData<Item>,
}

impl<'buf, Item: DeclarativeWithArgs<'buf>> ArrayIter<'buf, Item> {
    /// The bytes at which the array starts.
    pub closed spec fn spec_start(&self) -> Seq<u8> {
        self.start@
    }

    /// The number of items.
    pub closed spec fn spec_length(&self) -> usize {
        self.length
    }

    /// The argument that each item is decoded with.
    pub closed spec fn spec_argument(&self) -> Item::Argument {
        self.argument
    }

    /// How many items have been handed out.
    pub closed spec fn spec_cursor(&self) -> usize {
        self.cursor
    }

    /// The cursor sits where the items handed out so far leave it.
    pub closed spec fn wf(&self) -> bool {
        &&& self.cursor <= self.length
        &&& self.buffer@ == iter_remaining::<Item>(self.start@, self.argument, self.cursor as nat)
    }
}

impl<'buf, Item: StaticEncodingSize + DeclarativeWithArgs<'buf>> ArrayIter<'buf, Item> where
    Item::Argument: Copy,
 {
    /// Decodes the next item, or returns `None` once all of them have been
    /// handed out.
    pub fn next(&mut self) -> (r: Option<Result<Item, Error>>)
        requires
            old(self).wf(),
        ensures
            final(self).wf(),
            final(self).spec_start() == old(self).spec_start(),
            final(self).spec_length() == old(self).spec_length(),
            final(self).spec_argument() == old(self).spec_argument(),
            old(self).spec_cursor() >= old(self).spec_length() ==> r is None && final(self).spec_cursor()
                == old(self).spec_cursor(),
            old(self).spec_cursor() < old(self).spec_length() ==> final(self).spec_cursor()
                == old(self).spec_cursor() + 1 && match r {
                Some(item) => match (
                    iter_item::<Item>(
                        old(self).spec_start(),
                        old(self).spec_argument(),
                        old(self).spec_cursor() as nat,
                    ),
                    item,
                ) {
                    (Ok((v, _)), Ok(x)) => x@ == v,
                    (Err(e1), Err(e2)) => e1 == e2,
                    _ => false,
                },
                None => false,
            },
    {
        if self.length <= self.cursor {
            return None;
        }
        self.cursor = self.cursor + 1;
        let argument = self.argument;
        let dest = self.buffer.parse_with::<Item>(argument);
        Some(dest)
    }
}

/// A view over items of unknown count that starts at a captured position
/// of the buffer. It consumes nothing and offers no walk.
pub struct Slice<'buf, Item: DeclarativeWithArgs<'buf>> {
    buffer: &'buf [u8],
    argument: Item::Argument,
    phantom: PhantomData<Item>,
}

impl<'buf, Item: DeclarativeWithArgs<'buf>> View for Slice<'buf, Item> {
    /// The bytes from the captured position on and the items' argument.
    type V = (Seq<u8>, Item::Argument);

    closed spec fn view(&self) -> (Seq<u8>, Item::Argument) {
        (self.buffer@, self.argument)
    }
}

impl<'buf, Item: DeclarativeWithArgs<'buf>> DeclarativeWithArgs<'buf> for Slice<'buf, Item> {
    type Argument = Item::Argument;

    /// Captures the position without consuming or checking any byte.
    open spec fn spec_parse_with(buffer: Seq<u8>, argument: Item::Argument) -> Result<
        ((Seq<u8>, Item::Argument), nat),
        Error,
    > {
        Ok(((buffer, argument), 0))
    }

    fn parse_with(buffer: &'buf [u8], argument: Item::Argument) -> (r: DeclResult<'buf, Self>) {
        let s = Slice { buffer, argument, phantom: PhantomData };
        assert(buffer@.skip(0) =~= buffer@);
        Ok((s, buffer))
    }
}

} // verus!
