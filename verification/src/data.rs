//! Typed payloads: their identity, their binary form, and their handlers.
//!
//! A payload type declares a stable 128-bit identity. A [`DataType`] is the
//! descriptor of one payload type: it encodes and decodes values of the type
//! with one fixed binary configuration, and it owns the handlers registered
//! for the type, which it calls in the order of their registration.

use vstd::prelude::*;
use core::marker::PhantomData;
use bincode::error::{DecodeError, EncodeError};
use bytes::{Bytes, BytesMut};
use crate::ident::Uuid;

verus! {

#[verifier::external_type_specification]
#[verifier::external_body]
pub struct ExBytes(Bytes);

#[verifier::external_type_specification]
#[verifier::external_body]
pub struct ExBytesMut(BytesMut);

#[verifier::external_type_specification]
#[verifier::external_body]
pub struct ExEncodeError(EncodeError);

#[verifier::external_type_specification]
#[verifier::external_body]
pub struct ExDecodeError(DecodeError);

/// The bytes that a `Bytes` holds.
pub uninterp spec fn bytes_contents(buf: Bytes) -> Seq<u8>;

/// The bytes that a `BytesMut` holds, up to its length.
pub uninterp spec fn bytes_mut_contents(buf: BytesMut) -> Seq<u8>;

/// A type of payload. Its identity is fixed for good and belongs to no
/// other type.
pub trait Data: Send {
    /// The identity of the type, as a 128-bit number.
    spec fn identity() -> u128 where Self: Sized;

    /// The identity of the type: the same value at every call.
    fn get_id_static() -> (id: Uuid) where Self: Sized
        ensures
            id@ == Self::identity(),
    ;

    /// The identity of the type of this value: it depends on the type
    /// alone, not on the value.
    fn get_id(&self) -> (id: Uuid) where Self: Sized
        ensures
            id@ == Self::identity(),
    {
        Self::get_id_static()
    }
}

/// Something that wants to see every received payload of one type. It gets
/// a shared reference and cannot change the payload.
pub trait DataHandler<TData: Data + ?Sized>: Send + Sync {
    fn handle(&self, obj: Box<&TData>);
}

/// A handler made of a function that takes every payload of the type.
#[verifier::reject_recursive_types(TData)]
#[verifier::reject_recursive_types(F)]
pub struct FnHandler<TData: Data + ?Sized, F: Fn(Box<&TData>)> {
    callback: F,
    marker: PhantomData<Box<dyn DataHandler<TData>>>,
}

impl<TData: Data + ?Sized, F: Fn(Box<&TData>)> FnHandler<TData, F> {
    /// The function takes every payload.
    #[verifier::type_invariant]
    spec fn total(self) -> bool {
        forall|obj: Box<&TData>| call_requires(self.callback, (obj,))
    }

    /// The handler that calls `callback`.
    pub fn new(callback: F) -> (made: Self)
        requires
            forall|obj: Box<&TData>| call_requires(callback, (obj,)),
        ensures
            made.callback() == callback,
    {
        FnHandler { callback, marker: PhantomData }
    }

    /// The function that the handler calls.
    pub closed spec fn callback(&self) -> F {
        self.callback
    }
}

impl<TData: Data + ?Sized, F: Fn(Box<&TData>) + Send + Sync + 'static> DataHandler<
    TData,
> for FnHandler<TData, F> {
    fn handle(&self, obj: Box<&TData>) {
        proof {
            use_type_invariant(self);
        }
        (self.callback)(obj)
    }
}

/// A handler as a descriptor stores it: type-erased, behind one pointer.
#[verifier::reject_recursive_types(TData)]
pub struct Handler<TData: Data + ?Sized> {
    pub callback: Box<dyn DataHandler<TData>>,
}

impl<TData: Data + ?Sized> Handler<TData> {
    /// Wraps a handler of any concrete type.
    pub fn new(callback: Box<dyn DataHandler<TData>>) -> (made: Self)
        ensures
            made == (Handler { callback }),
    {
        Handler { callback }
    }

    /// Hands `obj` to the handler.
    pub fn handle(&self, obj: Box<&TData>) {
        self.callback.handle(obj);
    }
}

/// The descriptor of the payload type `TData`.
#[verifier::reject_recursive_types(TData)]
pub struct DataType<TData: Data + ?Sized> {
    handlers: Vec<Handler<TData>>,
}

impl<TData: Data + ?Sized> DataType<TData> {
    /// The registered handlers, in the order of their registration.
    pub closed spec fn handlers(&self) -> Seq<Handler<TData>> {
        self.handlers@
    }

    /// A descriptor without handlers.
    pub fn new() -> (made: Self)
        ensures
            made.handlers() == Seq::<Handler<TData>>::empty(),
    {
        DataType { handlers: Vec::new() }
    }

    /// The identity of the payload type, whatever handlers are registered.
    pub fn get_id(&self) -> (id: Uuid) where TData: Sized
        ensures
            id@ == TData::identity(),
    {
        TData::get_id_static()
    }

    /// The number of registered handlers.
    pub fn handler_count(&self) -> (n: usize)
        ensures
            n == self.handlers().len(),
    {
        self.handlers.len()
    }

    /// The handler at place `i`, counting from 0 in the order of
    /// registration.
    pub fn handler_at(&self, i: usize) -> (r: Option<&Handler<TData>>)
        ensures
            r is Some <==> i < self.handlers().len(),
            r matches Some(handler) ==> *handler == self.handlers()[i as int],
    {
        if i < self.handlers.len() {
            Some(&self.handlers[i])
        } else {
            None
        }
    }

    /// Registers a handler behind those already registered.
    pub fn register(&mut self, handler: Handler<TData>)
        ensures
            final(self).handlers() == old(self).handlers().push(handler),
    {
        self.handlers.push(handler);
    }

    /// Hands `obj` to every registered handler, in the order of
    /// registration, and says how many were called.
    pub fn handle(&self, obj: Box<&TData>) -> (called: usize)
        ensures
            called == self.handlers().len(),
    {
        let payload: &TData = *obj;
        let mut i: usize = 0;
        while i < self.handlers.len()
            invariant
                i <= self.handlers@.len(),
            decreases self.handlers@.len() - i,
        {
            self.handlers[i].handle(Box::new(payload));
            i += 1;
        }
        i
    }

    /// Calls `bincode::encode_into_slice` with the standard configuration on
    /// the bytes of `buf`, which keeps its length: the encoding of `obj` is
    /// written from its front, the result is the number of bytes written,
    /// and the bytes behind them stay as they were. A buffer too short for
    /// the encoding gives an error.
    #[verifier::external_body]
    pub fn encode_to_bytes(&self, buf: &mut BytesMut, obj: TData) -> (r: Result<
        usize,
        EncodeError,
    >) where TData: bincode::Encode + Sized
        ensures
            bytes_mut_contents(*final(buf)).len() == bytes_mut_contents(*old(buf)).len(),
            r matches Ok(written) ==> written <= bytes_mut_contents(*old(buf)).len(),
            r matches Ok(written) ==> bytes_mut_contents(*final(buf)).skip(written as int)
                == bytes_mut_contents(*old(buf)).skip(written as int),
    {
        let config = bincode::config::standard();
        bincode::encode_into_slice(obj, buf, config)
    }

    /// Calls `bincode::decode_from_slice` with the standard configuration on
    /// the bytes of `buf`: one value is read from its front, and the result
    /// holds it with the number of bytes read.
    #[verifier::external_body]
    pub fn decode_from_bytes(&self, buf: &Bytes) -> (r: Result<(Box<TData>, usize), DecodeError>) where
        TData: bincode::Decode<()> + Sized,

        ensures
            r matches Ok(read) ==> read.1 <= bytes_contents(*buf).len(),
    {
        let config = bincode::config::standard();
        let (value, read) = bincode::decode_from_slice::<TData, bincode::config::Configuration>(
            buf,
            config,
        )?;
        Ok((Box::new(value), read))
    }
}

} // verus!
