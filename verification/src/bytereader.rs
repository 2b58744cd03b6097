//! A cursor over the bytes of one reply.
//!
//! Every read is bounds-checked and moves the cursor by what it consumed. A
//! read that fails leaves the cursor where it was.

use vstd::prelude::*;
use vstd::utf8::{decode_utf8, valid_utf8};
use crate::error::ErrorKind;
use crate::float32::Float32;
use crate::text::string_from_utf8;

verus! {

/// The number that two bytes spell in little-endian order.
pub open spec fn le_u16(bytes: Seq<u8>) -> int
    recommends
        bytes.len() == 2,
{
    bytes[0] + 0x100 * bytes[1]
}

/// The number that four bytes spell in little-endian order.
pub open spec fn le_u32(bytes: Seq<u8>) -> int
    recommends
        bytes.len() == 4,
{
    bytes[0] + 0x100 * bytes[1] + 0x1_0000 * bytes[2] + 0x100_0000 * bytes[3]
}

/// The two's complement reading of `value` in a word of `2 * half` values.
pub open spec fn signed(value: int, half: int) -> int {
    if value < half {
        value
    } else {
        value - 2 * half
    }
}

/// The index of the first zero byte of `bytes` at or after `from`, or the
/// length of `bytes` where there is none.
pub open spec fn first_zero(bytes: Seq<u8>, from: int) -> int
    decreases bytes.len() - from,
{
    if from < 0 || from >= bytes.len() {
        bytes.len() as int
    } else if bytes[from] == 0 {
        from
    } else {
        first_zero(bytes, from + 1)
    }
}

/// What a reader is, as mathematics: the whole buffer and how much of it has
/// been read.
pub struct ReaderView {
    pub bytes: Seq<u8>,
    pub cursor: nat,
}

impl ReaderView {
    /// The cursor lies within the buffer or at its end.
    pub open spec fn wf(self) -> bool {
        self.cursor <= self.bytes.len()
    }

    /// How many bytes are still unread.
    pub open spec fn remaining(self) -> nat {
        if self.cursor <= self.bytes.len() {
            (self.bytes.len() - self.cursor) as nat
        } else {
            0
        }
    }

    /// The unread bytes.
    pub open spec fn unread(self) -> Seq<u8> {
        self.bytes.skip(self.cursor as int)
    }

    /// The same buffer with the cursor at `cursor`.
    pub open spec fn at(self, cursor: nat) -> ReaderView {
        ReaderView { bytes: self.bytes, cursor }
    }

    /// The `length` bytes that follow the cursor.
    pub open spec fn next(self, length: nat) -> Seq<u8> {
        self.bytes.subrange(self.cursor as int, (self.cursor + length) as int)
    }

    /// Reading `length` bytes: the bytes and the reader after them.
    pub open spec fn get_bytes(self, length: nat) -> Result<(Seq<u8>, ReaderView), ErrorKind> {
        if length <= self.remaining() {
            Ok((self.next(length), self.at(self.cursor + length)))
        } else {
            Err(ErrorKind::OutOfRange)
        }
    }

    /// Reading one byte.
    pub open spec fn get_byte(self) -> Result<(u8, ReaderView), ErrorKind> {
        if 1 <= self.remaining() {
            Ok((self.bytes[self.cursor as int], self.at(self.cursor + 1)))
        } else {
            Err(ErrorKind::OutOfRange)
        }
    }

    /// Reading a signed 16-bit number.
    pub open spec fn get_short(self) -> Result<(i16, ReaderView), ErrorKind> {
        if 2 <= self.remaining() {
            Ok((signed(le_u16(self.next(2)), 0x8000) as i16, self.at(self.cursor + 2)))
        } else {
            Err(ErrorKind::OutOfRange)
        }
    }

    /// Reading a signed 32-bit number.
    pub open spec fn get_int(self) -> Result<(i32, ReaderView), ErrorKind> {
        if 4 <= self.remaining() {
            Ok((signed(le_u32(self.next(4)), 0x8000_0000) as i32, self.at(self.cursor + 4)))
        } else {
            Err(ErrorKind::OutOfRange)
        }
    }

    /// Reading an unsigned 32-bit number.
    pub open spec fn get_long(self) -> Result<(u32, ReaderView), ErrorKind> {
        if 4 <= self.remaining() {
            Ok((le_u32(self.next(4)) as u32, self.at(self.cursor + 4)))
        } else {
            Err(ErrorKind::OutOfRange)
        }
    }

    /// Reading a single-precision number.
    pub open spec fn get_float(self) -> Result<(Float32, ReaderView), ErrorKind> {
        if 4 <= self.remaining() {
            Ok((Float32 { bits: le_u32(self.next(4)) as u32 }, self.at(self.cursor + 4)))
        } else {
            Err(ErrorKind::OutOfRange)
        }
    }

    /// Where the text at the cursor ends: the index of its terminator, or the
    /// buffer's length where no zero byte follows.
    pub open spec fn text_end(self) -> int {
        first_zero(self.bytes, self.cursor as int)
    }

    /// The bytes of the text at the cursor, without its terminator.
    pub open spec fn text_bytes(self) -> Seq<u8> {
        self.bytes.subrange(self.cursor as int, self.text_end())
    }

    /// Reading a zero-terminated text: out of range at the end of the
    /// buffer, else without terminator where no zero byte follows, else
    /// invalid where the bytes before the terminator are not UTF-8, else the
    /// characters that those bytes encode and the reader behind the
    /// terminator.
    pub open spec fn get_string(self) -> Result<(Seq<char>, ReaderView), ErrorKind> {
        if self.remaining() < 1 {
            Err(ErrorKind::OutOfRange)
        } else if self.text_end() >= self.bytes.len() {
            Err(ErrorKind::MissingTerminator)
        } else if !valid_utf8(self.text_bytes()) {
            Err(ErrorKind::InvalidText)
        } else {
            Ok((decode_utf8(self.text_bytes()), self.at((self.text_end() + 1) as nat)))
        }
    }

    /// Looking at the unread bytes without reading them.
    pub open spec fn peek_remaining_bytes(self) -> Result<Seq<u8>, ErrorKind> {
        if 1 <= self.remaining() {
            Ok(self.unread())
        } else {
            Err(ErrorKind::OutOfRange)
        }
    }
}

/// The value that a read gave, where it succeeded.
pub open spec fn value<T>(read: Result<(T, ReaderView), ErrorKind>) -> T {
    read->Ok_0.0
}

/// The reader behind a read, where it succeeded.
pub open spec fn rest<T>(read: Result<(T, ReaderView), ErrorKind>) -> ReaderView {
    read->Ok_0.1
}

/// Why a read failed, where it did.
pub open spec fn failure<T>(read: Result<(T, ReaderView), ErrorKind>) -> ErrorKind {
    read->Err_0
}

/// A cursor over an owned buffer of bytes.
pub struct ByteReader {
    response: Vec<u8>,
    iterator: usize,
}

impl View for ByteReader {
    type V = ReaderView;

    closed spec fn view(&self) -> ReaderView {
        ReaderView { bytes: self.response@, cursor: self.iterator as nat }
    }
}

impl ByteReader {
    #[verifier::type_invariant]
    spec fn cursor_in_buffer(self) -> bool {
        self.iterator <= self.response.len()
    }

    /// A reader at the start of `data`.
    pub fn new(data: Vec<u8>) -> (reader: Self)
        ensures
            reader@ == (ReaderView { bytes: data@, cursor: 0 }),
            reader@.wf(),
    {
        ByteReader { response: data, iterator: 0 }
    }

    /// How many bytes have been read.
    pub fn position(&self) -> (cursor: usize)
        ensures
            cursor == self@.cursor,
            self@.wf(),
    {
        proof {
            use_type_invariant(self);
        }
        self.iterator
    }

    /// How many bytes are still unread.
    pub fn remaining(&self) -> (count: usize)
        ensures
            count == self@.remaining(),
            self@.wf(),
    {
        proof {
            use_type_invariant(self);
        }
        self.response.len() - self.iterator
    }

    /// Whether `byte_size` more bytes can be read.
    fn check_byte_size(&self, byte_size: usize) -> (result: Result<(), ErrorKind>)
        ensures
            self@.wf(),
            byte_size <= self@.remaining() ==> result is Ok,
            byte_size > self@.remaining() ==> result == Err::<(), ErrorKind>(ErrorKind::OutOfRange),
            result is Ok ==> self.iterator + byte_size <= self.response.len(),
    {
        if self.remaining() < byte_size {
            Err(ErrorKind::OutOfRange)
        } else {
            Ok(())
        }
    }

    /// Reads the next `length` bytes. Fails with `OutOfRange` where fewer
    /// are left.
    pub fn get_bytes(&mut self, length: usize) -> (result: Result<&[u8], ErrorKind>)
        ensures
            final(self)@.wf(),
            match old(self)@.get_bytes(length as nat) {
                Ok((bytes, after)) => result matches Ok(slice) && slice@ == bytes
                    && final(self)@ == after,
                Err(kind) => result == Err::<&[u8], ErrorKind>(kind) && final(self)@ == old(self)@,
            },
    {
        self.check_byte_size(length)?;
        let start = self.iterator;
        self.iterator = start + length;
        Ok(vstd::slice::slice_subrange(self.response.as_slice(), start, start + length))
    }

    /// Reads the next byte. Fails with `OutOfRange` where none is left.
    pub fn get_byte(&mut self) -> (result: Result<u8, ErrorKind>)
        ensures
            final(self)@.wf(),
            match old(self)@.get_byte() {
                Ok((byte, after)) => result == Ok::<u8, ErrorKind>(byte) && final(self)@ == after,
                Err(kind) => result == Err::<u8, ErrorKind>(kind) && final(self)@ == old(self)@,
            },
    {
        self.check_byte_size(1)?;
        let value = self.response[self.iterator];
        self.iterator = self.iterator + 1;
        Ok(value)
    }

    /// The number that the `width` bytes at the cursor spell in little-endian
    /// order, for a width of two or four. Moves the cursor past them.
    fn get_word(&mut self, width: usize) -> (result: Result<u32, ErrorKind>)
        requires
            width == 2 || width == 4,
        ensures
            final(self)@.wf(),
            width <= old(self)@.remaining() ==> final(self)@ == old(self)@.at(
                old(self)@.cursor + width as nat,
            ),
            width <= old(self)@.remaining() && width == 2 ==> result == Ok::<u32, ErrorKind>(
                le_u16(old(self)@.next(2)) as u32,
            ),
            width <= old(self)@.remaining() && width == 4 ==> result == Ok::<u32, ErrorKind>(
                le_u32(old(self)@.next(4)) as u32,
            ),
            width > old(self)@.remaining() ==> result == Err::<u32, ErrorKind>(ErrorKind::OutOfRange)
                && final(self)@ == old(self)@,
    {
        self.check_byte_size(width)?;
        let start = self.iterator;
        let low: u32 = self.response[start] as u32 + 0x100 * (self.response[start + 1] as u32);
        let value: u32 = if width == 2 {
            low
        } else {
            let high: u32 = self.response[start + 2] as u32 + 0x100 * (self.response[start + 3] as u32);
            low + 0x1_0000 * high
        };
        self.iterator = start + width;
        Ok(value)
    }

    /// Reads a signed 16-bit number, low byte first. Fails with
    /// `OutOfRange` where fewer than two bytes are left.
    pub fn get_short(&mut self) -> (result: Result<i16, ErrorKind>)
        ensures
            final(self)@.wf(),
            match old(self)@.get_short() {
                Ok((value, after)) => result == Ok::<i16, ErrorKind>(value) && final(self)@ == after,
                Err(kind) => result == Err::<i16, ErrorKind>(kind) && final(self)@ == old(self)@,
            },
    {
        let word = self.get_word(2)?;
        if word < 0x8000 {
            Ok(word as i16)
        } else {
            Ok((word as i32 - 0x1_0000) as i16)
        }
    }

    /// Reads a signed 32-bit number, low byte first. Fails with
    /// `OutOfRange` where fewer than four bytes are left.
    pub fn get_int(&mut self) -> (result: Result<i32, ErrorKind>)
        ensures
            final(self)@.wf(),
            match old(self)@.get_int() {
                Ok((value, after)) => result == Ok::<i32, ErrorKind>(value) && final(self)@ == after,
                Err(kind) => result == Err::<i32, ErrorKind>(kind) && final(self)@ == old(self)@,
            },
    {
        let word = self.get_word(4)?;
        if word < 0x8000_0000 {
            Ok(word as i32)
        } else {
            Ok((word as i64 - 0x1_0000_0000) as i32)
        }
    }

    /// Reads an unsigned 32-bit number, low byte first. Fails with
    /// `OutOfRange` where fewer than four bytes are left.
    pub fn get_long(&mut self) -> (result: Result<u32, ErrorKind>)
        ensures
            final(self)@.wf(),
            match old(self)@.get_long() {
                Ok((value, after)) => result == Ok::<u32, ErrorKind>(value) && final(self)@ == after,
                Err(kind) => result == Err::<u32, ErrorKind>(kind) && final(self)@ == old(self)@,
            },
    {
        self.get_word(4)
    }

    /// Reads a single-precision number, low byte first. Fails with
    /// `OutOfRange` where fewer than four bytes are left.
    pub fn get_float(&mut self) -> (result: Result<Float32, ErrorKind>)
        ensures
            final(self)@.wf(),
            match old(self)@.get_float() {
                Ok((value, after)) => result == Ok::<Float32, ErrorKind>(value) && final(self)@
                    == after,
                Err(kind) => result == Err::<Float32, ErrorKind>(kind)
                    && final(self)@ == old(self)@,
            },
    {
        let word = self.get_word(4)?;
        Ok(Float32::from_bits(word))
    }

    /// The index of the first zero byte at or after the cursor, or the
    /// buffer's length where there is none.
    fn get_next_null_char_pos(&self) -> (pos: usize)
        ensures
            pos == self@.text_end(),
            self@.cursor <= pos <= self@.bytes.len(),
    {
        proof {
            use_type_invariant(self);
        }
        let mut pos = self.iterator;
        while pos < self.response.len() && self.response[pos] != 0
            invariant
                self.iterator <= pos <= self.response.len(),
                first_zero(self.response@, pos as int) == first_zero(
                    self.response@,
                    self.iterator as int,
                ),
            decreases self.response.len() - pos,
        {
            pos = pos + 1;
        }
        pos
    }

    /// Reads a zero-terminated text and moves the cursor past its
    /// terminator. Fails with `OutOfRange` where no byte is left, with
    /// `MissingTerminator` where bytes are left and none of them is zero,
    /// and with `InvalidText` where the bytes before the terminator are not
    /// UTF-8.
    pub fn get_string(&mut self) -> (result: Result<String, ErrorKind>)
        ensures
            final(self)@.wf(),
            match old(self)@.get_string() {
                Ok((text, after)) => result matches Ok(string) && string@ == text && final(self)@
                    == after,
                Err(kind) => result == Err::<String, ErrorKind>(kind)
                    && final(self)@ == old(self)@,
            },
    {
        self.check_byte_size(1)?;
        let pos = self.get_next_null_char_pos();
        if pos >= self.response.len() {
            return Err(ErrorKind::MissingTerminator);
        }
        let raw = vstd::slice::slice_to_vec(
            vstd::slice::slice_subrange(self.response.as_slice(), self.iterator, pos),
        );
        match string_from_utf8(raw) {
            Some(text) => {
                self.iterator = pos + 1;
                Ok(text)
            },
            None => Err(ErrorKind::InvalidText),
        }
    }

    /// The unread bytes, without reading them. Fails with `OutOfRange` where
    /// none is left.
    pub fn peek_remaining_bytes(&self) -> (result: Result<&[u8], ErrorKind>)
        ensures
            self@.wf(),
            match self@.peek_remaining_bytes() {
                Ok(bytes) => result matches Ok(slice) && slice@ == bytes,
                Err(kind) => result == Err::<&[u8], ErrorKind>(kind),
            },
    {
        proof {
            use_type_invariant(self);
        }
        if self.iterator >= self.response.len() {
            Err(ErrorKind::OutOfRange)
        } else {
            Ok(
                vstd::slice::slice_subrange(
                    self.response.as_slice(),
                    self.iterator,
                    self.response.len(),
                ),
            )
        }
    }
}

/// `first_zero` finds a zero byte, and the first one: from `from` up to the
/// index it gives no byte is zero, and the byte at that index is zero unless
/// the index is the length of `bytes`.
pub proof fn lemma_first_zero(bytes: Seq<u8>, from: int)
    requires
        0 <= from <= bytes.len(),
    ensures
        from <= first_zero(bytes, from) <= bytes.len(),
        forall|i: int| from <= i < first_zero(bytes, from) ==> bytes[i] != 0,
        first_zero(bytes, from) < bytes.len() ==> bytes[first_zero(bytes, from)] == 0,
    decreases bytes.len() - from,
{
    if from < bytes.len() && bytes[from] != 0 {
        lemma_first_zero(bytes, from + 1);
    }
}

/// A read of `count` bytes moves the cursor by exactly `count`, and the next
/// read starts right behind it: two reads in a row give what one read of
/// both lengths gives, cut in two, and end at the same place.
pub proof fn lemma_reads_follow_each_other(reader: ReaderView, first: nat, second: nat)
    requires
        reader.wf(),
        first + second <= reader.remaining(),
    ensures
        reader.get_bytes(first) == Ok::<(Seq<u8>, ReaderView), ErrorKind>(
            (reader.unread().take(first as int), reader.at(reader.cursor + first)),
        ),
        reader.at(reader.cursor + first).wf(),
        reader.at(reader.cursor + first).get_bytes(second) matches Ok((tail, end)) && reader.get_bytes(
            first + second,
        ) == Ok::<(Seq<u8>, ReaderView), ErrorKind>((reader.unread().take(first as int) + tail, end)),
        second >= 1 ==> (reader.at(reader.cursor + first).get_byte() matches Ok((byte, _)) && byte
            == reader.bytes[(reader.cursor + first) as int]),
{
    let middle = reader.at(reader.cursor + first);
    assert(reader.next(first) =~= reader.unread().take(first as int));
    assert(reader.next(first + second) =~= reader.next(first) + middle.next(second));
}

/// Every read that succeeds leaves the buffer as it was and the cursor
/// further on by the bytes it consumed, still within the buffer: one byte,
/// two for a short, four for an int, a long or a float, and for a text its
/// bytes and the terminator.
pub proof fn lemma_cursor_advances(reader: ReaderView, length: nat)
    requires
        reader.wf(),
    ensures
        reader.get_bytes(length) matches Ok((_, after)) ==> after.wf() && after == reader.at(
            reader.cursor + length,
        ),
        reader.get_byte() matches Ok((_, after)) ==> after.wf() && after == reader.at(
            reader.cursor + 1,
        ),
        reader.get_short() matches Ok((_, after)) ==> after.wf() && after == reader.at(
            reader.cursor + 2,
        ),
        reader.get_int() matches Ok((_, after)) ==> after.wf() && after == reader.at(
            reader.cursor + 4,
        ),
        reader.get_long() matches Ok((_, after)) ==> after.wf() && after == reader.at(
            reader.cursor + 4,
        ),
        reader.get_float() matches Ok((_, after)) ==> after.wf() && after == reader.at(
            reader.cursor + 4,
        ),
        reader.get_string() matches Ok((_, after)) ==> after.wf() && after == reader.at(
            reader.cursor + reader.text_bytes().len() + 1,
        ) && reader.bytes[after.cursor - 1] == 0 && !reader.text_bytes().contains(0),
{
    lemma_first_zero(reader.bytes, reader.cursor as int);
}

/// A read that asks for more than is left fails with `OutOfRange`, whichever
/// read it is.
pub proof fn lemma_read_past_end(reader: ReaderView, length: nat)
    requires
        reader.wf(),
    ensures
        length > reader.remaining() ==> reader.get_bytes(length) == Err::<
            (Seq<u8>, ReaderView),
            ErrorKind,
        >(ErrorKind::OutOfRange),
        reader.remaining() < 1 ==> reader.get_byte() == Err::<(u8, ReaderView), ErrorKind>(
            ErrorKind::OutOfRange,
        ),
        reader.remaining() < 2 ==> reader.get_short() == Err::<(i16, ReaderView), ErrorKind>(
            ErrorKind::OutOfRange,
        ),
        reader.remaining() < 4 ==> reader.get_int() == Err::<(i32, ReaderView), ErrorKind>(
            ErrorKind::OutOfRange,
        ),
        reader.remaining() < 4 ==> reader.get_long() == Err::<(u32, ReaderView), ErrorKind>(
            ErrorKind::OutOfRange,
        ),
        reader.remaining() < 4 ==> reader.get_float() == Err::<(Float32, ReaderView), ErrorKind>(
            ErrorKind::OutOfRange,
        ),
        reader.remaining() < 1 ==> reader.get_string() == Err::<(Seq<char>, ReaderView), ErrorKind>(
            ErrorKind::OutOfRange,
        ),
        reader.remaining() < 1 ==> reader.peek_remaining_bytes() == Err::<Seq<u8>, ErrorKind>(
            ErrorKind::OutOfRange,
        ),
{
}

/// Where bytes are left and none of them is zero, reading a text fails with
/// `MissingTerminator`.
pub proof fn lemma_text_without_terminator(reader: ReaderView)
    requires
        reader.wf(),
        reader.remaining() >= 1,
        forall|i: int| reader.cursor <= i < reader.bytes.len() ==> reader.bytes[i] != 0,
    ensures
        reader.get_string() == Err::<(Seq<char>, ReaderView), ErrorKind>(
            ErrorKind::MissingTerminator,
        ),
{
    lemma_first_zero(reader.bytes, reader.cursor as int);
}

/// Before the end of the buffer a look at the unread bytes gives exactly
/// the part of the buffer behind the cursor; at the end it fails with
/// `OutOfRange`.
pub proof fn lemma_peek(reader: ReaderView)
    requires
        reader.wf(),
    ensures
        reader.cursor < reader.bytes.len() ==> (reader.peek_remaining_bytes() matches Ok(rest)
            && rest.len() == reader.remaining() && reader.bytes.take(reader.cursor as int) + rest
            == reader.bytes),
        reader.cursor == reader.bytes.len() ==> reader.peek_remaining_bytes() == Err::<
            Seq<u8>,
            ErrorKind,
        >(ErrorKind::OutOfRange),
{
}

} // verus!
