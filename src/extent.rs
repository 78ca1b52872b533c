use vstd::prelude::*;

use crate::model::{appended, fits, overwritten, window, RESERVATION};

verus! {

/// Why an operation on a mapped file was refused before it touched any byte.
#[derive(Copy, Clone, Debug, PartialEq, Eq, Structural)]
pub enum BoundsError {
    /// The range `[offset, offset + len)` reaches past the logical size.
    EndOfRange,
    /// More bytes were to be dropped than the file holds.
    TailUnderflow,
    /// The new size would exceed the virtual reservation.
    ReservationExceeded,
}

/// Copies `data` into `region` from `offset` on.
fn copy_into(region: &mut [u8], offset: usize, data: &[u8])
    requires
        offset + data@.len() <= old(region)@.len(),
    ensures
        final(region)@ == overwritten(old(region)@, offset as int, data@),
{
    let n = data.len();
    let total = region.len();
    let mut i: usize = 0;
    while i < n
        invariant
            n == data@.len(),
            total == old(region)@.len(),
            i <= n,
            offset + n <= old(region)@.len(),
            region@.len() == old(region)@.len(),
            forall|j: int|
                0 <= j < region@.len() && !(offset <= j < offset + i) ==> #[trigger] region@[j]
                    == old(region)@[j],
            forall|j: int| offset <= j < offset + i ==> #[trigger] region@[j] == data@[j - offset],
        decreases n - i,
    {
        region[offset + i] = data[i];
        i = i + 1;
    }
    assert(region@ =~= overwritten(old(region)@, offset as int, data@));
}

/// Copies the `len` bytes of `region` from `offset` on into a new buffer.
fn copy_out(region: &[u8], offset: usize, len: usize) -> (r: Vec<u8>)
    requires
        offset + len <= region@.len(),
    ensures
        r@ == window(region@, offset as int, len as int),
{
    let mut out: Vec<u8> = Vec::with_capacity(len);
    let total = region.len();
    let mut i: usize = 0;
    while i < len
        invariant
            total == region@.len(),
            i <= len,
            offset + len <= region@.len(),
            out@ == window(region@, offset as int, i as int),
        decreases len - i,
    {
        out.push(region[offset + i]);
        i = i + 1;
        assert(out@ =~= window(region@, offset as int, i as int));
    }
    out
}

/// The logical size of a mapped growable file, and every bounds decision made on it.
///
/// Content lives in the mapped region, which the owner of the mapping hands in as a
/// slice covering exactly `[0, size)`; the operations here are the only ones that read
/// or write it. The size never exceeds [`RESERVATION`].
pub struct Extent {
    size: u64,
}

impl View for Extent {
    type V = nat;

    closed spec fn view(&self) -> nat {
        self.size as nat
    }
}

impl Extent {
    #[verifier::type_invariant]
    spec fn inv(self) -> bool {
        self.size <= RESERVATION
    }

    /// The extent of a file whose length is `file_len`, as found when it is opened.
    /// A file longer than the reservation cannot be mapped whole and is refused.
    pub fn open(file_len: u64) -> (r: Result<Extent, BoundsError>)
        ensures
            file_len <= RESERVATION ==> (r matches Ok(e) && e@ == file_len),
            file_len > RESERVATION ==> r == Err::<Extent, BoundsError>(
                BoundsError::ReservationExceeded,
            ),
    {
        if file_len <= RESERVATION {
            Ok(Extent { size: file_len })
        } else {
            Err(BoundsError::ReservationExceeded)
        }
    }

    /// The logical size in bytes.
    pub fn size(&self) -> (r: u64)
        ensures
            r == self@,
    {
        self.size
    }

    /// The one bounds check of reads and overwrites: `Ok` exactly when
    /// `[offset, offset + len)` lies inside the logical size.
    pub fn check_range(&self, offset: usize, len: usize) -> (r: Result<(), BoundsError>)
        ensures
            r is Ok <==> fits(offset as int, len as int, self@ as int),
            r is Err ==> r == Err::<(), BoundsError>(BoundsError::EndOfRange),
    {
        let size = self.size;
        if len as u64 <= size && offset as u64 <= size - len as u64 {
            Ok(())
        } else {
            Err(BoundsError::EndOfRange)
        }
    }

    /// The length the backing file must be given before `len` bytes are appended.
    pub fn grow_target(&self, len: usize) -> (r: Result<u64, BoundsError>)
        ensures
            self@ + len <= RESERVATION ==> r == Ok::<u64, BoundsError>((self@ + len) as u64),
            self@ + len > RESERVATION ==> r == Err::<u64, BoundsError>(
                BoundsError::ReservationExceeded,
            ),
    {
        proof {
            use_type_invariant(self);
        }
        if len as u64 <= RESERVATION - self.size {
            Ok(self.size + len as u64)
        } else {
            Err(BoundsError::ReservationExceeded)
        }
    }

    /// Records that the backing file grew by `len` bytes.
    pub fn grow(&mut self, len: usize) -> (r: Result<(), BoundsError>)
        ensures
            r is Ok <==> old(self)@ + len <= RESERVATION,
            r is Ok ==> final(self)@ == old(self)@ + len,
            r is Err ==> r == Err::<(), BoundsError>(BoundsError::ReservationExceeded)
                && final(self)@ == old(self)@,
    {
        match self.grow_target(len) {
            Ok(n) => {
                self.size = n;
                Ok(())
            },
            Err(e) => Err(e),
        }
    }

    /// The length the backing file must be given before `len` bytes are dropped from
    /// its tail.
    pub fn shrink_target(&self, len: usize) -> (r: Result<u64, BoundsError>)
        ensures
            len <= self@ ==> r == Ok::<u64, BoundsError>((self@ - len) as u64),
            len > self@ ==> r == Err::<u64, BoundsError>(BoundsError::TailUnderflow),
    {
        if len as u64 <= self.size {
            Ok(self.size - len as u64)
        } else {
            Err(BoundsError::TailUnderflow)
        }
    }

    /// Records that the backing file lost its last `len` bytes.
    pub fn drop_from_tail(&mut self, len: usize) -> (r: Result<(), BoundsError>)
        ensures
            r is Ok <==> len <= old(self)@,
            r is Ok ==> final(self)@ == old(self)@ - len,
            r is Err ==> r == Err::<(), BoundsError>(BoundsError::TailUnderflow)
                && final(self)@ == old(self)@,
    {
        proof {
            use_type_invariant(&*self);
        }
        match self.shrink_target(len) {
            Ok(n) => {
                self.size = n;
                Ok(())
            },
            Err(e) => Err(e),
        }
    }

    /// Appends `data`. `region` covers the file after it was grown for the new bytes,
    /// `[0, size + data.len())`. On success the new bytes follow the old content and
    /// the size grows by their count; on failure nothing changes.
    pub fn append(&mut self, region: &mut [u8], data: &[u8]) -> (r: Result<(), BoundsError>)
        requires
            old(region)@.len() == old(self)@ + data@.len(),
        ensures
            r is Ok <==> old(self)@ + data@.len() <= RESERVATION,
            r is Ok ==> final(self)@ == old(self)@ + data@.len() && final(region)@ == appended(
                old(region)@.subrange(0, old(self)@ as int),
                data@,
            ),
            r is Err ==> r == Err::<(), BoundsError>(BoundsError::ReservationExceeded)
                && final(self)@ == old(self)@ && final(region)@ == old(region)@,
    {
        let at = region.len() - data.len();
        match self.grow(data.len()) {
            Ok(()) => {
                copy_into(region, at, data);
                assert(old(region)@.subrange(at + data@.len(), old(region)@.len() as int)
                    =~= Seq::<u8>::empty());
                assert(region@ =~= appended(old(region)@.subrange(0, old(self)@ as int), data@));
                Ok(())
            },
            Err(e) => Err(e),
        }
    }

    /// Replaces the bytes from `offset` on with `data`. `region` covers `[0, size)`.
    /// Refused, with nothing changed, when the range reaches past the size.
    pub fn overwrite(
        &self,
        region: &mut [u8],
        offset: usize,
        data: &[u8],
    ) -> (r: Result<(), BoundsError>)
        requires
            old(region)@.len() == self@,
        ensures
            r is Ok <==> fits(offset as int, data@.len() as int, self@ as int),
            r is Ok ==> final(region)@ == overwritten(old(region)@, offset as int, data@),
            r is Err ==> r == Err::<(), BoundsError>(BoundsError::EndOfRange) && final(region)@
                == old(region)@,
    {
        match self.check_range(offset, data.len()) {
            Ok(()) => {
                copy_into(region, offset, data);
                Ok(())
            },
            Err(e) => Err(e),
        }
    }

    /// A copy of the `len` bytes from `offset` on. `region` covers `[0, size)`.
    /// Refused when the range reaches past the size.
    pub fn read(&self, region: &[u8], offset: usize, len: usize) -> (r: Result<Vec<u8>, BoundsError>)
        requires
            region@.len() == self@,
        ensures
            r is Ok <==> fits(offset as int, len as int, self@ as int),
            r matches Ok(v) ==> v@ == window(region@, offset as int, len as int),
            r is Err ==> r == Err::<Vec<u8>, BoundsError>(BoundsError::EndOfRange),
    {
        match self.check_range(offset, len) {
            Ok(()) => Ok(copy_out(region, offset, len)),
            Err(e) => Err(e),
        }
    }
}

} // verus!
