//! The guest memory arena: an owned, fixed-size, zero-initialized byte
//! buffer backing guest physical RAM, with bounds-checked image loading.

use vstd::prelude::*;
use crate::errors::VmError;

verus! {

/// True when every byte of `m` is zero.
pub open spec fn zero_filled(m: Seq<u8>) -> bool {
    forall|i: int| 0 <= i < m.len() ==> m[i] == 0u8
}

/// The arena contents after `image` is copied in at offset zero: the image
/// bytes, then the prior contents beyond the image's length.
pub open spec fn with_image(mem: Seq<u8>, image: Seq<u8>) -> Seq<u8>
    recommends
        image.len() <= mem.len(),
{
    image + mem.skip(image.len() as int)
}

/// A contiguous host-allocated byte range of fixed size standing for guest
/// physical RAM. Zero-filled on creation; its length never changes.
pub struct GuestMemory {
    bytes: Vec<u8>,
}

impl View for GuestMemory {
    type V = Seq<u8>;

    closed spec fn view(&self) -> Seq<u8> {
        self.bytes@
    }
}

impl GuestMemory {
    /// Allocates a zero-filled arena of `size` bytes.
    pub fn new(size: usize) -> (m: GuestMemory)
        ensures
            m@.len() == size,
            zero_filled(m@),
    {
        let mut bytes: Vec<u8> = Vec::new();
        let mut i: usize = 0;
        while i < size
            invariant
                i <= size,
                bytes@.len() == i,
                zero_filled(bytes@),
            decreases size - i,
        {
            bytes.push(0u8);
            i = i + 1;
        }
        GuestMemory { bytes }
    }

    /// The arena's size in bytes.
    pub fn size(&self) -> (n: usize)
        ensures
            n == self@.len(),
    {
        self.bytes.len()
    }

    /// Bounds-checked read of one byte of guest memory.
    pub fn read_byte(&self, offset: usize) -> (b: u8)
        requires
            offset < self@.len(),
        ensures
            b == self@[offset as int],
    {
        self.bytes[offset]
    }

    /// Read view of the whole arena, for handing the host-side base of guest
    /// RAM to the virtualization facility.
    pub fn contents(&self) -> (v: &Vec<u8>)
        ensures
            v@ == self@,
    {
        &self.bytes
    }

    /// Copies `image` into the arena at offset zero. Rejects an image larger
    /// than the arena instead of writing out of bounds; on rejection the
    /// arena is untouched.
    pub fn load_image(&mut self, image: &Vec<u8>) -> (r: Result<(), VmError>)
        ensures
            r is Ok <==> image@.len() <= old(self)@.len(),
            r is Ok ==> final(self)@ == with_image(old(self)@, image@),
            r is Err ==> r == Err::<(), VmError>(VmError::ImageTooLarge)
                && final(self)@ == old(self)@,
    {
        if image.len() > self.bytes.len() {
            return Err(VmError::ImageTooLarge);
        }
        let mut i: usize = 0;
        while i < image.len()
            invariant
                i <= image@.len(),
                image@.len() <= self@.len(),
                self@.len() == old(self)@.len(),
                forall|j: int| 0 <= j < i ==> self@[j] == image@[j],
                forall|j: int| i <= j < self@.len() ==> self@[j] == old(self)@[j],
            decreases image@.len() - i,
        {
            self.bytes[i] = image[i];
            i = i + 1;
        }
        proof {
            assert(self@ =~= with_image(old(self)@, image@));
        }
        Ok(())
    }

    /// Applies an image that may be absent. An absent image is the intended
    /// degraded path: the call succeeds, reports that nothing was written,
    /// and leaves the arena as it was.
    pub fn apply_image(&mut self, image: &Option<Vec<u8>>) -> (r: Result<bool, VmError>)
        ensures
            match image {
                None => r == Ok::<bool, VmError>(false) && final(self)@ == old(self)@,
                Some(img) => {
                    &&& img@.len() <= old(self)@.len() ==> r == Ok::<bool, VmError>(true)
                        && final(self)@ == with_image(old(self)@, img@)
                    &&& img@.len() > old(self)@.len() ==> r == Err::<bool, VmError>(
                        VmError::ImageTooLarge,
                    ) && final(self)@ == old(self)@
                },
            },
    {
        match image {
            None => Ok(false),
            Some(img) => {
                match self.load_image(img) {
                    Ok(()) => Ok(true),
                    Err(e) => Err(e),
                }
            },
        }
    }
}

/// Copy fidelity: loading an image no larger than a zero-filled arena gives
/// an arena of unchanged length whose first bytes equal the image exactly
/// and whose remaining bytes are still zero.
pub proof fn lemma_image_copy_fidelity(mem: Seq<u8>, image: Seq<u8>)
    requires
        zero_filled(mem),
        image.len() <= mem.len(),
    ensures
        with_image(mem, image).len() == mem.len(),
        forall|i: int| 0 <= i < image.len() ==> with_image(mem, image)[i] == image[i],
        forall|i: int| image.len() <= i < mem.len() ==> with_image(mem, image)[i] == 0u8,
{
    assert forall|i: int| image.len() <= i < mem.len() implies with_image(mem, image)[i]
        == 0u8 by {
        assert(with_image(mem, image)[i] == mem[i]);
    }
}

} // verus!
