//! A writer that keeps a bootstrap in memory.
use vstd::prelude::*;
use crate::error::BuildError;

verus! {

/// Where to seek to.
#[derive(Clone, Copy, Debug, PartialEq, Eq, Structural)]
pub enum SeekTarget {
    /// A position counted from the start.
    Start(u64),
    /// A position relative to the end of the data.
    End(i64),
    /// A position relative to the current one.
    Current(i64),
}

/// ArtifactMemoryWriter provides a writer to allow writing bootstrap
/// data to a byte slice in memory.
pub struct ArtifactMemoryWriter {
    data: Vec<u8>,
    pos: u64,
}

/// `data` with `bytes` written at `pos`: it is filled up with zeros to `pos` if it ends before,
/// what stood there is overwritten, and it grows as needed.
pub open spec fn written_at(data: Seq<u8>, pos: int, bytes: Seq<u8>) -> Seq<u8> {
    let len = if data.len() < pos + bytes.len() { pos + bytes.len() } else { data.len() as int };
    Seq::new(
        len as nat,
        |i: int|
            if pos <= i < pos + bytes.len() {
                bytes[i - pos]
            } else if i < data.len() {
                data[i]
            } else {
                0
            },
    )
}

/// The bytes that a reader at `pos` gets if it asks for `len` bytes.
pub open spec fn read_at(data: Seq<u8>, pos: int, len: int) -> Seq<u8> {
    if pos >= data.len() {
        Seq::empty()
    } else if pos + len >= data.len() {
        data.skip(pos)
    } else {
        data.subrange(pos, pos + len)
    }
}

impl ArtifactMemoryWriter {
    /// What has been written.
    pub closed spec fn data(&self) -> Seq<u8> {
        self.data@
    }

    /// Where the next byte is written or read.
    pub closed spec fn position(&self) -> u64 {
        self.pos
    }

    /// The position that a seek leads to; it is valid if it is a 64-bit offset.
    pub open spec fn seek_position(&self, target: SeekTarget) -> int {
        match target {
            SeekTarget::Start(n) => n as int,
            SeekTarget::End(delta) => self.data().len() + delta,
            SeekTarget::Current(delta) => self.position() + delta,
        }
    }

    /// An empty writer.
    pub fn new() -> (writer: Self)
        ensures
            writer.data() == Seq::<u8>::empty(),
            writer.position() == 0,
    {
        ArtifactMemoryWriter { data: Vec::new(), pos: 0 }
    }

    /// Writes all of `bytes` at the current position and moves past them.
    #[verifier::rlimit(40)]
    pub fn write(&mut self, bytes: &[u8]) -> (result: Result<usize, BuildError>)
        requires
            old(self).position() + bytes@.len() <= usize::MAX,
        ensures
            result == Ok::<usize, BuildError>(bytes@.len() as usize),
            final(self).data() == written_at(
                old(self).data(),
                old(self).position() as int,
                bytes@,
            ),
            final(self).position() == old(self).position() + bytes@.len(),
    {
        let start: usize = self.pos as usize;
        while self.data.len() < start
            invariant
                self.pos == old(self).pos,
                start == old(self).pos,
                old(self).data@.len() <= self.data@.len(),
                self.data@.len() <= start || self.data@ == old(self).data@,
                forall|i: int|
                    0 <= i < self.data@.len() ==> #[trigger] self.data@[i] == if i < old(
                        self,
                    ).data@.len() {
                        old(self).data@[i]
                    } else {
                        0
                    },
            decreases start - self.data@.len(),
        {
            self.data.push(0);
        }
        let ghost padded = self.data@;
        let mut i: usize = 0;
        while i < bytes.len()
            invariant
                i <= bytes@.len(),
                self.pos == old(self).pos,
                start == old(self).pos,
                start + bytes@.len() <= usize::MAX,
                start <= padded.len(),
                self.data@.len() == if padded.len() < start + i { start + i } else {
                    padded.len() as int
                },
                forall|j: int|
                    0 <= j < self.data@.len() ==> #[trigger] self.data@[j] == if start <= j < start
                        + i {
                        bytes@[j - start]
                    } else {
                        padded[j]
                    },
            decreases bytes@.len() - i,
        {
            if start + i < self.data.len() {
                self.data.set(start + i, bytes[i]);
            } else {
                self.data.push(bytes[i]);
            }
            i += 1;
        }
        self.pos = self.pos + bytes.len() as u64;
        assert(self.data@ =~= written_at(old(self).data@, old(self).pos as int, bytes@));
        Ok(bytes.len())
    }

    /// Moves the current position. It may lie behind the end of the data. A position that is
    /// negative or too large is refused and nothing changes.
    pub fn seek(&mut self, target: SeekTarget) -> (result: Result<u64, BuildError>)
        ensures
            final(self).data() == old(self).data(),
            match result {
                Ok(pos) => {
                    &&& pos == old(self).seek_position(target)
                    &&& final(self).position() == pos
                },
                Err(e) => {
                    &&& e == BuildError::InvalidSeek
                    &&& !(0 <= old(self).seek_position(target) <= u64::MAX)
                    &&& final(self).position() == old(self).position()
                },
            },
    {
        let (base, delta): (u64, i64) = match target {
            SeekTarget::Start(n) => {
                self.pos = n;
                return Ok(n);
            },
            SeekTarget::End(delta) => (self.data.len() as u64, delta),
            SeekTarget::Current(delta) => (self.pos, delta),
        };
        let pos: i128 = base as i128 + delta as i128;
        if pos < 0 || pos > u64::MAX as i128 {
            return Err(BuildError::InvalidSeek);
        }
        self.pos = pos as u64;
        Ok(self.pos)
    }

    /// Nothing is buffered, so there is nothing to do.
    pub fn flush(&mut self) -> (result: Result<(), BuildError>)
        ensures
            result is Ok,
            *final(self) == *old(self),
    {
        Ok(())
    }

    /// A reader of what has been written, from the start.
    pub fn as_reader(&mut self) -> (reader: &mut ArtifactMemoryWriter)
        ensures
            reader.data() == old(self).data(),
            reader.position() == 0,
            *final(self) == *final(reader),
    {
        self.pos = 0;
        self
    }

    /// Reads up to `len` bytes at the current position and moves past them.
    pub fn read(&mut self, len: usize) -> (bytes: Vec<u8>)
        ensures
            bytes@ == read_at(old(self).data(), old(self).position() as int, len as int),
            final(self).data() == old(self).data(),
            final(self).position() == old(self).position() + bytes@.len(),
    {
        let mut bytes: Vec<u8> = Vec::new();
        if self.pos >= self.data.len() as u64 {
            return bytes;
        }
        let start: usize = self.pos as usize;
        let left: usize = self.data.len() - start;
        let count: usize = if len < left { len } else { left };
        let mut i: usize = 0;
        while i < count
            invariant
                i <= count,
                *self == *old(self),
                start + count <= self.data@.len() <= usize::MAX,
                bytes@ == self.data@.subrange(start as int, start + i),
            decreases count - i,
        {
            bytes.push(self.data[start + i]);
            i += 1;
        }
        self.pos = self.pos + count as u64;
        assert(bytes@ =~= read_at(self.data@, start as int, len as int));
        bytes
    }
}

impl Default for ArtifactMemoryWriter {
    fn default() -> (writer: Self)
        ensures
            writer.data() == Seq::<u8>::empty(),
            writer.position() == 0,
    {
        ArtifactMemoryWriter::new()
    }
}

/// What is written at a position is read back from there, whatever the data was before.
pub proof fn law_written_bytes_read_back(data: Seq<u8>, pos: int, bytes: Seq<u8>)
    requires
        0 <= pos,
    ensures
        read_at(written_at(data, pos, bytes), pos, bytes.len() as int) == bytes,
{
    let after = written_at(data, pos, bytes);
    assert(read_at(after, pos, bytes.len() as int) =~= bytes);
}

/// A write changes nothing before its position and nothing behind its end.
pub proof fn law_write_leaves_the_rest(data: Seq<u8>, pos: int, bytes: Seq<u8>, i: int)
    requires
        0 <= pos,
        0 <= i < data.len(),
        i < pos || i >= pos + bytes.len(),
    ensures
        written_at(data, pos, bytes)[i] == data[i],
{
}

/// Two writes in a row from the start are read back as one: a writer that only appends ends up
/// with all that was written.
pub proof fn law_appended_writes_join(data: Seq<u8>, first: Seq<u8>, second: Seq<u8>)
    ensures
        ({
            let once = written_at(data, data.len() as int, first);
            written_at(once, once.len() as int, second) == data + first + second
        }),
{
    let once = written_at(data, data.len() as int, first);
    assert(once =~= data + first);
    assert(written_at(once, once.len() as int, second) =~= data + first + second);
}

} // verus!
