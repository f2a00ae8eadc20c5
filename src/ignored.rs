//! A placeholder that accounts for a field's bytes without decoding them.

use vstd::prelude::*;

use std::marker::PhantomData;

use crate::declarative::{DeclResult, Declarative, StaticEncodingSize};
use crate::error::Error;
use vstd::slice::slice_subrange;

verus! {

/// Accounts for the bytes of a statically sized `T` without decoding them.
pub struct Ignored<T>(PhantomData<T>);

impl<T> View for Ignored<T> {
    type V = ();

    open spec fn view(&self) -> () {
        ()
    }
}

impl<'buf, T: Declarative<'buf> + StaticEncodingSize> Declarative<'buf> for Ignored<T> {
    open spec fn spec_parse(buffer: Seq<u8>) -> Result<((), nat), Error> {
        if buffer.len() < T::spec_size() {
            Err(Error::InsufficientBytes)
        } else {
            Ok(((), T::spec_size()))
        }
    }

    fn parse(buffer: &'buf [u8]) -> (r: DeclResult<'buf, Self>) {
        let size = T::static_size();
        if buffer.len() < size {
            return Err(Error::InsufficientBytes);
        }
        Ok((Ignored(PhantomData), slice_subrange(buffer, size, buffer.len())))
    }
}

impl<T: StaticEncodingSize> StaticEncodingSize for Ignored<T> {
    open spec fn spec_size() -> nat {
        T::spec_size()
    }

    fn static_size() -> (r: usize) {
        T::static_size()
    }
}

} // verus!
