//! The sink that encoders append to.
//!
//! A `Writer` owns one growable buffer. Encoders append to it; when a body is
//! complete the buffer is frozen and handed out. A write either appends all
//! of its bytes or leaves the buffer as it was.

use actix_web::web::{Bytes, BytesMut};
use vstd::prelude::*;
use vstd::utf8::encode_utf8;

use crate::buffer::{
    buffer_contents, buffer_extend, buffer_freeze, buffer_len, buffer_truncate,
    buffer_with_capacity, bytes_contents, max_buffer_len,
};
use crate::json::{io_error_message, json_string, write_json_str};

verus! {

/// Why an encoding could not be written. Either way the reason is the
/// same, that the buffer would have had to hold more bytes than a buffer
/// may; the two variants tell who found out.
#[derive(Debug)]
pub enum EncodeError {
    /// The writer itself refused to append.
    TooLong,
    /// The JSON writer gave up; this is what it said.
    Json(String),
}

/// A growable byte buffer that is appended to, or cut back to a length it
/// had before.
pub struct Writer {
    buf: BytesMut,
}

impl View for Writer {
    type V = Seq<u8>;

    closed spec fn view(&self) -> Seq<u8> {
        buffer_contents(self.buf)
    }
}

impl Writer {
    /// An empty writer with room for `capacity` bytes before it has to grow.
    pub fn with_capacity(capacity: usize) -> (w: Writer)
        requires
            capacity <= max_buffer_len(),
        ensures
            w@ == Seq::<u8>::empty(),
    {
        Writer { buf: buffer_with_capacity(capacity) }
    }

    /// The number of bytes written so far.
    pub fn len(&self) -> (n: usize)
        ensures
            n == self@.len(),
    {
        buffer_len(&self.buf)
    }

    /// Appends `data` and reports how many bytes that was. Fails, and writes
    /// nothing, exactly when the buffer would grow beyond its limit.
    pub fn write(&mut self, data: &[u8]) -> (r: Result<usize, EncodeError>)
        ensures
            r is Ok <==> old(self)@.len() + data@.len() <= max_buffer_len(),
            match r {
                Ok(n) => final(self)@ == old(self)@ + data@ && n == data@.len(),
                Err(e) => final(self)@ == old(self)@ && e is TooLong,
            },
    {
        let limit: usize = isize::MAX as usize;
        let held: usize = buffer_len(&self.buf);
        if held > limit || data.len() > limit - held {
            return Err(EncodeError::TooLong);
        }
        buffer_extend(&mut self.buf, data);
        Ok(data.len())
    }

    /// Nothing is held back by a writer, so there is nothing to flush.
    pub fn flush(&mut self) -> (r: Result<(), EncodeError>)
        ensures
            r is Ok,
            final(self)@ == old(self)@,
    {
        Ok(())
    }

    /// Drops everything after the first `len` bytes; a `len` beyond the end
    /// changes nothing.
    pub fn truncate(&mut self, len: usize)
        ensures
            final(self)@ == if len <= old(self)@.len() {
                old(self)@.subrange(0, len as int)
            } else {
                old(self)@
            },
    {
        buffer_truncate(&mut self.buf, len);
    }

    /// Settles an attempt to append something that began when the writer
    /// held `start` bytes. If the attempt succeeded, what it appended stays
    /// and its length is reported; if it failed, the writer is cut back to
    /// `start` bytes and the failure is passed on with its message.
    pub fn settle(&mut self, start: usize, outcome: Result<(), std::io::Error>) -> (r: Result<
        usize,
        EncodeError,
    >)
        requires
            start <= old(self)@.len(),
        ensures
            outcome is Ok <==> r is Ok,
            match r {
                Ok(n) => final(self)@ == old(self)@ && n == old(self)@.len() - start,
                Err(e) => final(self)@ == old(self)@.subrange(0, start as int) && e is Json,
            },
    {
        match outcome {
            Ok(()) => Ok(buffer_len(&self.buf) - start),
            Err(e) => {
                buffer_truncate(&mut self.buf, start);
                Err(EncodeError::Json(io_error_message(&e)))
            },
        }
    }

    /// Appends the JSON string literal for `text` and reports its length.
    /// Fails, and writes nothing, exactly when the buffer would grow beyond
    /// its limit.
    pub fn write_json_string(&mut self, text: &str) -> (r: Result<usize, EncodeError>)
        ensures
            r is Ok <==> old(self)@.len() + json_string(encode_utf8(text@)).len()
                <= max_buffer_len(),
            match r {
                Ok(n) => final(self)@ == old(self)@ + json_string(encode_utf8(text@)) && n
                    == json_string(encode_utf8(text@)).len(),
                Err(e) => final(self)@ == old(self)@ && e is Json,
            },
    {
        let start: usize = buffer_len(&self.buf);
        let outcome = write_json_str(text, &mut self.buf);
        proof {
            assert(self@.subrange(0, start as int) == old(self)@);
        }
        self.settle(start, outcome)
    }

    /// Ends the writing: the bytes written, as an immutable buffer.
    pub fn freeze(self) -> (b: Bytes)
        ensures
            bytes_contents(b) == self@,
    {
        buffer_freeze(self.buf)
    }
}

} // verus!
