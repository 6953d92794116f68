// SPDX-License-Identifier: GPL-2.0

//! The open and read protocol of the device.
//!
//! A session is stateless: what a read returns depends on the table, the
//! reader's offset and buffer, and the byte that the random source gives for
//! that read. The host keeps the offset. A read at offset zero draws one
//! byte, selects a fact with it and writes the whole fact; a read at any
//! other offset reports the end of the stream. So a session that is read to
//! its end yields one fact, and a second read at offset zero draws again.
//!
//! The host's allocator and random source enter as functions that `open`
//! and `read` call. What a read does once the source has answered is
//! `RustFile::read_with_draw`, and `read_outcome` is its specification.

use crate::error::Error;
use crate::selection::{select_index, selected_fact};
use crate::table::FactTable;
use vstd::prelude::*;
use vstd::string::*;
use vstd::utf8::decode_utf8;

verus! {

/// What a read hands over: the bytes it writes, or the error it fails with.
///
/// `capacity` is the length of the reader's buffer, `draw` what the random
/// source gives (`None` if it fails). Past offset zero the stream has ended
/// and the source is not asked.
pub open spec fn read_outcome(
    facts: Seq<Seq<u8>>,
    capacity: nat,
    offset: nat,
    draw: Option<u8>,
) -> Result<Seq<u8>, Error> {
    if offset != 0 {
        Ok(Seq::empty())
    } else {
        match draw {
            None => Err(Error::RandomSourceUnavailable),
            Some(byte) => {
                if selected_fact(facts, byte).len() <= capacity {
                    Ok(selected_fact(facts, byte))
                } else {
                    Err(Error::BufferTooSmall)
                }
            },
        }
    }
}

/// What a read returns for an outcome: the number of bytes written.
pub open spec fn read_count(outcome: Result<Seq<u8>, Error>) -> Result<usize, Error> {
    match outcome {
        Ok(bytes) => Ok(bytes.len() as usize),
        Err(e) => Err(e),
    }
}

/// The reader's buffer after a read: the bytes written, then what the
/// buffer held behind them. A failed read leaves it as it was.
pub open spec fn buffer_after(before: Seq<u8>, outcome: Result<Seq<u8>, Error>) -> Seq<u8> {
    match outcome {
        Ok(bytes) => bytes + before.skip(bytes.len() as int),
        Err(_) => before,
    }
}

/// The copy to the reader: writes `data` to the front of `buffer` if the
/// buffer can hold all of it, and returns how many bytes that was. A buffer
/// that is too small is left as it was.
pub fn write_slice(buffer: &mut [u8], data: &[u8]) -> (written: Result<usize, Error>)
    ensures
        data@.len() <= old(buffer)@.len() ==> written == Ok::<usize, Error>(data@.len() as usize)
            && final(buffer)@ == data@ + old(buffer)@.skip(data@.len() as int),
        data@.len() > old(buffer)@.len() ==> written == Err::<usize, Error>(Error::BufferTooSmall)
            && final(buffer)@ == old(buffer)@,
{
    if data.len() > buffer.len() {
        return Err(Error::BufferTooSmall);
    }
    let mut i: usize = 0;
    while i < data.len()
        invariant
            i <= data@.len() <= buffer@.len(),
            buffer@.len() == old(buffer)@.len(),
            buffer@ == data@.take(i as int) + old(buffer)@.skip(i as int),
        decreases data@.len() - i,
    {
        buffer[i] = data[i];
        i = i + 1;
    }
    Ok(i)
}

/// One open session on the device. It holds no state of its own, only a
/// reference to the table that all sessions share.
#[derive(Debug)]
pub struct RustFile<'a> {
    pub table: &'a FactTable,
}

impl<'a> View for RustFile<'a> {
    type V = Seq<Seq<u8>>;

    /// The facts that the session selects from.
    open spec fn view(&self) -> Seq<Seq<u8>> {
        self.table@
    }
}

impl<'a> RustFile<'a> {
    /// The session on `table`.
    pub open spec fn on(table: &'a FactTable) -> RustFile<'a> {
        RustFile { table }
    }

    /// Opens a session on `table`. The host's `allocate` is handed the new
    /// session and returns it in the memory it found for it, or `None` if
    /// it found none. Only then does opening fail, with `AllocationFailed`.
    pub fn open<A, W>(table: &'a FactTable, allocate: A) -> (opened: Result<W, Error>) where
        A: FnOnce(RustFile<'a>) -> Option<W>,
        requires
            allocate.requires((RustFile::on(table),)),
        ensures
            match opened {
                Ok(session) => allocate.ensures((RustFile::on(table),), Some(session)),
                Err(e) => e == Error::AllocationFailed && allocate.ensures(
                    (RustFile::on(table),),
                    None,
                ),
            },
    {
        match allocate(RustFile { table }) {
            Some(session) => Ok(session),
            None => Err(Error::AllocationFailed),
        }
    }

    /// The fact for one answer of the random source: the one at the drawn
    /// byte modulo the table's size. A source that failed is reported,
    /// never replaced by a byte of the device's own.
    pub fn get_fact(&self, draw: Option<u8>) -> (selected: Result<&'static str, Error>)
        ensures
            match draw {
                Some(byte) => selected matches Ok(fact) && fact.spec_bytes() == selected_fact(
                    self@,
                    byte,
                ) && fact@ == decode_utf8(selected_fact(self@, byte)),
                None => selected matches Err(e) && e == Error::RandomSourceUnavailable,
            },
    {
        match draw {
            Some(byte) => {
                let index = select_index(byte, self.table.size());
                Ok(self.table.get(index))
            },
            None => Err(Error::RandomSourceUnavailable),
        }
    }

    /// A read for which the random source has answered: `draw` is what the
    /// source gave, and counts only at offset zero.
    ///
    /// Past offset zero the stream has ended: the read returns 0 and leaves
    /// the buffer as it was. At offset zero it writes the fact that `draw`
    /// selects to the front of `buffer` and returns its length. A fact that
    /// does not fit is not cut short: the read fails and the buffer stays as
    /// it was.
    pub fn read_with_draw(&self, buffer: &mut [u8], offset: u64, draw: Option<u8>) -> (written:
        Result<usize, Error>)
        ensures
            written == read_count(read_outcome(self@, old(buffer)@.len(), offset as nat, draw)),
            final(buffer)@ == buffer_after(
                old(buffer)@,
                read_outcome(self@, old(buffer)@.len(), offset as nat, draw),
            ),
    {
        if offset != 0 {
            assert(buffer@.skip(0) =~= buffer@);
            return Ok(0);
        }
        match self.get_fact(draw) {
            Ok(fact) => write_slice(buffer, fact.as_bytes()),
            Err(e) => Err(e),
        }
    }

    /// Reads from the session at `offset` into `buffer`.
    ///
    /// At offset zero the read calls `source` for one byte; past it the
    /// stream has ended and `source` is not called, and need not even be
    /// callable. The read then is `read_with_draw` of what the source gave:
    /// it returns 0 past offset zero, and at offset zero delivers the fact
    /// that the byte selects.
    pub fn read<F>(&self, buffer: &mut [u8], offset: u64, source: F) -> (written: Result<
        usize,
        Error,
    >) where F: FnOnce() -> Option<u8>
        requires
            offset == 0 ==> source.requires(()),
        ensures
            offset != 0 ==> written == Ok::<usize, Error>(0) && final(buffer)@ == old(buffer)@,
            exists|draw: Option<u8>|
                {
                    &&& offset == 0 ==> source.ensures((), draw)
                    &&& written == read_count(
                        #[trigger] read_outcome(self@, old(buffer)@.len(), offset as nat, draw),
                    )
                    &&& final(buffer)@ == buffer_after(
                        old(buffer)@,
                        read_outcome(self@, old(buffer)@.len(), offset as nat, draw),
                    )
                },
    {
        let draw = if offset == 0 {
            source()
        } else {
            None
        };
        self.read_with_draw(buffer, offset, draw)
    }

    /// The device cannot be written to: every write is rejected.
    #[allow(unused_variables)]
    pub fn write(&self, data: &[u8], offset: u64) -> (written: Result<usize, Error>)
        ensures
            written == Err::<usize, Error>(Error::OperationNotSupported),
    {
        Err(Error::OperationNotSupported)
    }

    /// The device has no position to move to: every seek is rejected.
    #[allow(unused_variables)]
    pub fn seek(&self, offset: u64) -> (position: Result<u64, Error>)
        ensures
            position == Err::<u64, Error>(Error::OperationNotSupported),
    {
        Err(Error::OperationNotSupported)
    }

    /// The device has no control requests: every one is rejected.
    #[allow(unused_variables)]
    pub fn ioctl(&self, command: u32, argument: usize) -> (answer: Result<i32, Error>)
        ensures
            answer == Err::<i32, Error>(Error::OperationNotSupported),
    {
        Err(Error::OperationNotSupported)
    }
}

} // verus!
