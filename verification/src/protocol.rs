//! The framed channel over one byte stream.
//!
//! A channel holds the stream, the bytes that arrived and were not yet
//! consumed, and one codec per direction. Messages travel as frames, each a
//! block of the message's wire bytes, so the receiver finds the boundaries
//! whatever the messages hold. The channel never touches the stream itself:
//! the driver reads from it and hands the bytes to [`Protocol::receive`],
//! and writes to it what [`Protocol::send_message`] returns.

use vstd::prelude::*;
use core::marker::PhantomData;
use crate::codec::Packet;
use crate::wire::{MAX_BLOCK_LEN, block, parse_block, put_block, put_bytes, read_block};

verus! {

/// How reading or writing a frame fails.
#[derive(Clone, Copy, Debug, PartialEq, Eq, Structural, Hash)]
pub enum ProtocolError {
    /// The stream ended in the middle of a frame.
    Truncated,
    /// A complete frame does not hold a message, or a message does not fit
    /// in a frame.
    Malformed,
    /// The stream could not be read or written.
    IoFailure,
}

/// Whether a message can travel in one frame.
pub open spec fn frame_fits<T: Packet>(value: T::V) -> bool {
    T::fits(value) && T::wire(value).len() <= MAX_BLOCK_LEN
}

/// Turns frames into messages of type `T`.
pub struct PacketDecoder<T> {
    marker: PhantomData<T>,
}

/// Turns messages of type `T` into frames.
pub struct PacketEncoder<T> {
    marker: PhantomData<T>,
}

impl<T: Packet> PacketDecoder<T> {
    pub fn new() -> Self {
        PacketDecoder { marker: PhantomData }
    }

    /// Decodes the content of one complete frame.
    pub fn decode(&self, frame: &[u8]) -> (r: Result<T, ProtocolError>)
        ensures
            match T::parse(frame@) {
                Some(value) => r matches Ok(packet) && packet@ == value,
                None => r matches Err(e) && e == ProtocolError::Malformed,
            },
    {
        match T::decode(frame) {
            Some(packet) => Ok(packet),
            None => Err(ProtocolError::Malformed),
        }
    }
}

impl<T: Packet> PacketEncoder<T> {
    pub fn new() -> Self {
        PacketEncoder { marker: PhantomData }
    }

    /// The frame that carries `message`.
    pub fn encode(&self, message: &T) -> (r: Result<Vec<u8>, ProtocolError>)
        ensures
            r is Ok <==> frame_fits::<T>(message@),
            r matches Ok(frame) ==> frame@ == block(T::wire(message@)),
            r matches Err(e) ==> e == ProtocolError::Malformed,
    {
        match message.encode() {
            Some(bytes) => {
                if bytes.len() > MAX_BLOCK_LEN {
                    return Err(ProtocolError::Malformed);
                }
                let mut frame: Vec<u8> = Vec::new();
                put_block(&mut frame, bytes.as_slice());
                Ok(frame)
            },
            None => Err(ProtocolError::Malformed),
        }
    }
}

/// A channel over a stream of type `S` that receives messages of type `TIn`
/// and sends messages of type `TOut`.
pub struct Protocol<S, TIn, TOut> {
    stream: S,
    inbound: Vec<u8>,
    decoder: PacketDecoder<TIn>,
    encoder: PacketEncoder<TOut>,
}

impl<S, TIn: Packet, TOut: Packet> Protocol<S, TIn, TOut> {
    /// The underlying stream.
    pub closed spec fn stream(&self) -> S {
        self.stream
    }

    /// The bytes that arrived and were not yet consumed.
    pub closed spec fn buffered(&self) -> Seq<u8> {
        self.inbound@
    }

    /// The codec of the inbound direction.
    pub closed spec fn decoder(&self) -> PacketDecoder<TIn> {
        self.decoder
    }

    /// The codec of the outbound direction.
    pub closed spec fn encoder(&self) -> PacketEncoder<TOut> {
        self.encoder
    }

    /// A channel over `stream` with nothing buffered.
    pub fn with_stream(stream: S) -> (channel: Self)
        ensures
            channel.stream() == stream,
            channel.buffered() == Seq::<u8>::empty(),
    {
        Protocol {
            stream,
            inbound: Vec::new(),
            decoder: PacketDecoder::new(),
            encoder: PacketEncoder::new(),
        }
    }

    /// The stream, for the driver to read from and write to.
    pub fn stream_mut(&mut self) -> (stream: &mut S)
        ensures
            *stream == old(self).stream(),
            final(self).stream() == *final(stream),
            final(self).buffered() == old(self).buffered(),
            final(self).decoder() == old(self).decoder(),
            final(self).encoder() == old(self).encoder(),
    {
        &mut self.stream
    }

    /// The number of buffered bytes.
    pub fn buffered_len(&self) -> (n: usize)
        ensures
            n == self.buffered().len(),
    {
        self.inbound.len()
    }

    /// Takes in bytes that the driver read from the stream.
    pub fn receive(&mut self, bytes: &[u8])
        ensures
            final(self).buffered() == old(self).buffered() + bytes@,
            final(self).stream() == old(self).stream(),
            final(self).decoder() == old(self).decoder(),
            final(self).encoder() == old(self).encoder(),
    {
        put_bytes(&mut self.inbound, bytes);
    }

    /// Takes the next frame out of the buffer and decodes it.
    ///
    /// While the buffer holds no complete frame the result is `Ok(None)` and
    /// the buffer stays as it is. A complete frame leaves the buffer, and
    /// what follows it stays, whether or not the frame holds a message.
    pub fn read_frame(&mut self) -> (r: Result<Option<TIn>, ProtocolError>)
        ensures
            match parse_block(old(self).buffered()) {
                Some((frame, rest)) => final(self).buffered() == rest && (match TIn::parse(frame) {
                    Some(value) => r matches Ok(Some(packet)) && packet@ == value,
                    None => r matches Err(e) && e == ProtocolError::Malformed,
                }),
                None => r matches Ok(None) && final(self).buffered() == old(self).buffered(),
            },
            final(self).stream() == old(self).stream(),
            final(self).decoder() == old(self).decoder(),
            final(self).encoder() == old(self).encoder(),
    {
        assert(self.inbound@.skip(0) =~= self.inbound@);
        let (decoded, next) = match read_block(self.inbound.as_slice(), 0) {
            Some((frame, next)) => (self.decoder.decode(frame), next),
            None => {
                return Ok(None);
            },
        };
        let rest = self.inbound.split_off(next);
        self.inbound = rest;
        match decoded {
            Ok(packet) => Ok(Some(packet)),
            Err(e) => Err(e),
        }
    }

    /// Tells whether the stream may end here: it may not while the buffer
    /// holds the beginning of a frame.
    pub fn end_of_stream(&self) -> (r: Result<(), ProtocolError>)
        ensures
            r is Err <==> self.buffered().len() > 0 && parse_block(self.buffered()) is None,
            r matches Err(e) ==> e == ProtocolError::Truncated,
    {
        assert(self.inbound@.skip(0) =~= self.inbound@);
        if self.inbound.len() == 0 {
            return Ok(());
        }
        match read_block(self.inbound.as_slice(), 0) {
            Some(_) => Ok(()),
            None => Err(ProtocolError::Truncated),
        }
    }

    /// The frame that carries `message`, for the driver to write to the
    /// stream in one piece.
    pub fn send_message(&self, message: &TOut) -> (r: Result<Vec<u8>, ProtocolError>)
        ensures
            r is Ok <==> frame_fits::<TOut>(message@),
            r matches Ok(frame) ==> frame@ == block(TOut::wire(message@)),
            r matches Err(e) ==> e == ProtocolError::Malformed,
    {
        self.encoder.encode(message)
    }

    /// Rebases the channel onto other message types: the same stream and the
    /// same buffered bytes, with the codecs that the two factories make from
    /// the old ones.
    pub fn map_codecs<NIn: Packet, NOut: Packet, FD, FE>(
        self,
        decoder_factory: FD,
        encoder_factory: FE,
    ) -> (channel: Protocol<S, NIn, NOut>) where
        FD: FnOnce(PacketDecoder<TIn>) -> PacketDecoder<NIn>,
        FE: FnOnce(PacketEncoder<TOut>) -> PacketEncoder<NOut>,

        requires
            call_requires(decoder_factory, (self.decoder(),)),
            call_requires(encoder_factory, (self.encoder(),)),
        ensures
            channel.stream() == self.stream(),
            channel.buffered() == self.buffered(),
            call_ensures(decoder_factory, (self.decoder(),), channel.decoder()),
            call_ensures(encoder_factory, (self.encoder(),), channel.encoder()),
    {
        let decoder = decoder_factory(self.decoder);
        let encoder = encoder_factory(self.encoder);
        Protocol { stream: self.stream, inbound: self.inbound, decoder, encoder }
    }
}

} // verus!
