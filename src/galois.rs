//! Arithmetic in the Galois fields GF(2^w).
//!
//! Addition in GF(2^w) is the bitwise XOR of the words, so the region
//! additions here work byte by byte on buffers whose lengths are multiples of
//! [`MACHINE_LONG_SIZE`].

use vstd::prelude::*;

use crate::{aligned, CodeWord, Error, ErrorKind, MACHINE_LONG_SIZE};

verus! {

/// The byte-wise XOR of two byte sequences of equal length.
pub open spec fn xor_bytes(a: Seq<u8>, b: Seq<u8>) -> Seq<u8>
    recommends
        a.len() == b.len(),
{
    Seq::new(a.len(), |i: int| a[i] ^ b[i])
}

/// The error, if any, of a region operation on a source of `n` bytes and a
/// second operand of `other` bytes.
pub open spec fn region_fault(n: nat, other: nat) -> Option<ErrorKind> {
    if n != other {
        Some(ErrorKind::InvalidArguments)
    } else if !aligned(n) {
        Some(ErrorKind::NotAligned(n as usize))
    } else {
        None
    }
}

/// A Galois field GF(2^w) with a word size `w` in `1..=32`.
///
/// All the regions passed to its methods must have lengths that are multiples
/// of [`MACHINE_LONG_SIZE`].
#[derive(Debug)]
pub struct GaloisField {
    w: CodeWord,
}

impl GaloisField {
    /// The word size of the field.
    pub closed spec fn width(&self) -> CodeWord {
        self.w
    }

    /// Whether the word size lies in `1..=32`.
    pub open spec fn wf(&self) -> bool {
        1 <= self.width().bits() <= 32
    }

    #[verifier::type_invariant]
    closed spec fn inv(self) -> bool {
        1 <= self.w.bits() <= 32
    }

    /// Creates a new field with the given word size, which must lie in `1..=32`.
    pub fn try_from_code_word(w: CodeWord) -> (r: Option<Self>)
        ensures
            r is Some <==> 1 <= w.bits() <= 32,
            r matches Some(gf) ==> gf.width() == w && gf.wf(),
    {
        let w_u8 = w.to_u8();
        if w_u8 == 0 || w_u8 > 32 {
            return None;
        }
        Some(GaloisField { w })
    }

    /// Returns the word size of the field.
    pub fn get_w(&self) -> (r: CodeWord)
        ensures
            r == CodeWord::named(self.width().bits() as u8),
            r.bits() == self.width().bits(),
            1 <= r.bits() <= 32,
            r.is_canonical() <==> (r.bits() == 8 || r.bits() == 16 || r.bits() == 32),
    {
        proof {
            use_type_invariant(self);
        }
        CodeWord::from_u8(self.w.to_u8())
    }

    /// Returns `a + b` in GF(2^w), which is their bitwise XOR.
    pub fn add(&self, a: i32, b: i32) -> (r: i32)
        ensures
            r == a ^ b,
    {
        a ^ b
    }

    /// Computes `a + b` in GF(2^w) region by region and stores it in `out`:
    /// `out[i] = a[i] ^ b[i]`.
    ///
    /// Use [`region_acc`](Self::region_acc) to accumulate into one of the inputs.
    pub fn region_add(&self, a: &[u8], b: &[u8], out: &mut [u8]) -> (r: Result<(), Error>)
        ensures
            r is Ok <==> a@.len() == b@.len() && a@.len() == old(out)@.len() && aligned(a@.len()),
            r matches Err(e) ==> {
                &&& e.kind() == if a@.len() != b@.len() || a@.len() != old(out)@.len() {
                    ErrorKind::InvalidArguments
                } else {
                    ErrorKind::NotAligned(a@.len() as usize)
                }
                &&& final(out)@ == old(out)@
            },
            r is Ok ==> final(out)@ == xor_bytes(a@, b@),
    {
        let n = a.len();
        if n != b.len() {
            return Err(Error::invalid_arguments("input regions must have the same length"));
        }
        if n != out.len() {
            return Err(Error::invalid_arguments("the output region must be as long as the inputs"));
        }
        if n % MACHINE_LONG_SIZE != 0 {
            return Err(Error::NotAligned(n));
        }
        let mut i: usize = 0;
        while i < n
            invariant
                n == a@.len() == b@.len() == out@.len(),
                forall|j: int| 0 <= j < i ==> out@[j] == a@[j] ^ b@[j],
            decreases n - i,
        {
            out[i] = a[i] ^ b[i];
            i = i + 1;
        }
        assert(out@ =~= xor_bytes(a@, b@));
        Ok(())
    }

    /// Computes `buf + acc` in GF(2^w) region by region and stores it in `buf`:
    /// `buf[i] = buf[i] ^ acc[i]`.
    pub fn region_acc(&self, buf: &mut [u8], acc: &[u8]) -> (r: Result<(), Error>)
        ensures
            r is Ok <==> region_fault(acc@.len(), old(buf)@.len()) is None,
            r matches Err(e) ==> {
                &&& Some(e.kind()) == region_fault(acc@.len(), old(buf)@.len())
                &&& final(buf)@ == old(buf)@
            },
            r is Ok ==> final(buf)@ == xor_bytes(old(buf)@, acc@),
    {
        let n = acc.len();
        if n != buf.len() {
            return Err(Error::invalid_arguments("the regions must have the same length"));
        }
        if n % MACHINE_LONG_SIZE != 0 {
            return Err(Error::NotAligned(n));
        }
        let mut i: usize = 0;
        while i < n
            invariant
                n == acc@.len() == buf@.len() == old(buf)@.len(),
                forall|j: int| 0 <= j < i ==> buf@[j] == old(buf)@[j] ^ acc@[j],
                forall|j: int| i <= j < n ==> buf@[j] == old(buf)@[j],
            decreases n - i,
        {
            buf[i] = buf[i] ^ acc[i];
            i = i + 1;
        }
        assert(buf@ =~= xor_bytes(old(buf)@, acc@));
        Ok(())
    }

    /// The error, if any, of a multiplication of a region of `n` bytes into
    /// one of `other` bytes: the regions must have one aligned length, the
    /// field must have one of the word sizes 8, 16 and 32, the only ones with
    /// a region routine, and the length must fit in the C `int` it takes.
    pub open spec fn multiply_fault(&self, n: nat, other: nat) -> Option<ErrorKind> {
        if region_fault(n, other) is Some {
            region_fault(n, other)
        } else if !self.width().is_canonical() {
            Some(ErrorKind::NotSupported)
        } else if n > i32::MAX {
            Some(ErrorKind::InvalidArguments)
        } else {
            None
        }
    }

    /// Checks the regions of a multiplication of `src` by a constant into
    /// `dest`, as [`multiply_fault`](Self::multiply_fault) states.
    pub fn check_region_multiply(&self, src: &[u8], dest: &[u8]) -> (r: Result<(), Error>)
        ensures
            r is Ok <==> self.multiply_fault(src@.len(), dest@.len()) is None,
            r matches Err(e) ==> Some(e.kind()) == self.multiply_fault(src@.len(), dest@.len()),
    {
        let n = src.len();
        if n != dest.len() {
            return Err(Error::invalid_arguments("the regions must have the same length"));
        }
        if n % MACHINE_LONG_SIZE != 0 {
            return Err(Error::NotAligned(n));
        }
        match self.w.to_u8() {
            8 | 16 | 32 => {},
            _ => {
                return Err(Error::not_supported("region multiply only supports w in {8, 16, 32}"));
            },
        }
        if n > i32::MAX as usize {
            return Err(Error::invalid_arguments("regions must be shorter than 2^31 bytes"));
        }
        Ok(())
    }
}

} // verus!
