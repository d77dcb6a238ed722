//! Erasure coding over the Galois fields GF(2^w): the parameters of a code,
//! the checks that encode and decode make before touching any buffer, and the
//! XOR regions that the codes are built from.

use vstd::prelude::*;

pub mod erasure;
pub mod galois;

verus! {

/// Size in bytes of a C `long` on the LP64 targets this library is built for;
/// every block length must be a multiple of it.
pub const MACHINE_LONG_SIZE: usize = 8;

/// Whether a block of `len` bytes has a length the word routines accept.
pub open spec fn aligned(len: nat) -> bool {
    len % (MACHINE_LONG_SIZE as nat) == 0
}

/// The size, in bits, of the code words of a Galois field GF(2^w).
///
/// `W8` is the default: the most common code word size. 8, 16 and 32 have
/// their own variants because only they unlock the optimised region routines.
#[derive(Debug, Clone, Copy, Default)]
pub enum CodeWord {
    /// A code word of 1 byte.
    #[default]
    W8,
    /// A code word of 2 bytes.
    W16,
    /// A code word of 4 bytes.
    W32,
    /// A code word of some other size in bits.
    Other(u8),
}

impl CodeWord {
    /// The number of bits of a code word.
    pub open spec fn bits(self) -> nat {
        match self {
            CodeWord::W8 => 8,
            CodeWord::W16 => 16,
            CodeWord::W32 => 32,
            CodeWord::Other(w) => w as nat,
        }
    }

    /// Whether this is one of the widths 8, 16 and 32 with their own region
    /// routines, whichever variant it is written with.
    pub open spec fn is_canonical(self) -> bool {
        self.bits() == 8 || self.bits() == 16 || self.bits() == 32
    }

    /// The code word of `w` bits, with 8, 16 and 32 written by their own
    /// variants.
    pub open spec fn named(w: u8) -> CodeWord {
        match w {
            8 => CodeWord::W8,
            16 => CodeWord::W16,
            32 => CodeWord::W32,
            _ => CodeWord::Other(w),
        }
    }

    /// Makes a new `CodeWord` from the given size in bits.
    pub fn from_u8(w: u8) -> (r: Self)
        ensures
            r == CodeWord::named(w),
            r.bits() == w as nat,
            r.is_canonical() <==> (w == 8 || w == 16 || w == 32),
    {
        match w {
            8 => CodeWord::W8,
            16 => CodeWord::W16,
            32 => CodeWord::W32,
            _ => CodeWord::Other(w),
        }
    }

    /// Returns the size of the code word in bits.
    pub fn to_u8(&self) -> (r: u8)
        ensures
            r as nat == self.bits(),
    {
        match self {
            CodeWord::W8 => 8,
            CodeWord::W16 => 16,
            CodeWord::W32 => 32,
            CodeWord::Other(w) => *w,
        }
    }

    /// Returns the size of the code word in bits, as the C `int` that the
    /// native routines take.
    pub fn as_cint(&self) -> (r: i32)
        ensures
            r as nat == self.bits(),
    {
        match self {
            CodeWord::W8 => 8,
            CodeWord::W16 => 16,
            CodeWord::W32 => 32,
            CodeWord::Other(w) => *w as i32,
        }
    }
}

/// An [`Error`] without its message: the variant, with the counts and the
/// length that it carries.
#[derive(Debug, Clone, Copy, PartialEq, Eq, Structural)]
pub enum ErrorKind {
    TooManyErasure(i32, i32),
    InvalidArguments,
    NotAligned(usize),
    NotSupported,
    Other,
}

/// The errors of this crate.
#[derive(Debug)]
pub enum Error {
    /// More blocks were erased than the code can recover: erased, then allowed.
    TooManyErasure(i32, i32),
    /// The input is malformed.
    InvalidArguments(String),
    /// A length that is not a multiple of [`MACHINE_LONG_SIZE`].
    NotAligned(usize),
    /// A combination of parameters that is not supported.
    NotSupported(String),
    /// Any other failure, such as a decode whose system could not be solved.
    Other(String),
}

impl Error {
    /// This error without its message.
    pub open spec fn kind(self) -> ErrorKind {
        match self {
            Error::TooManyErasure(n, max) => ErrorKind::TooManyErasure(n, max),
            Error::InvalidArguments(_) => ErrorKind::InvalidArguments,
            Error::NotAligned(n) => ErrorKind::NotAligned(n),
            Error::NotSupported(_) => ErrorKind::NotSupported,
            Error::Other(_) => ErrorKind::Other,
        }
    }

    /// `erasures` blocks were erased where at most `max_erasures` can be recovered.
    pub fn too_many_erasure(erasures: i32, max_erasures: i32) -> (r: Self)
        ensures
            r == Error::TooManyErasure(erasures, max_erasures),
    {
        Error::TooManyErasure(erasures, max_erasures)
    }

    /// Malformed input, described by `msg`.
    pub fn invalid_arguments(msg: &str) -> (r: Self)
        ensures
            r matches Error::InvalidArguments(s) && s@ == msg@,
    {
        broadcast use vstd::string::to_string_from_display_ensures_for_str;

        Error::InvalidArguments(msg.to_string())
    }

    /// An unsupported combination of parameters, described by `msg`.
    pub fn not_supported(msg: &str) -> (r: Self)
        ensures
            r matches Error::NotSupported(s) && s@ == msg@,
    {
        broadcast use vstd::string::to_string_from_display_ensures_for_str;

        Error::NotSupported(msg.to_string())
    }

    /// Any other failure, described by `msg`.
    pub fn other(msg: &str) -> (r: Self)
        ensures
            r matches Error::Other(s) && s@ == msg@,
    {
        broadcast use vstd::string::to_string_from_display_ensures_for_str;

        Error::Other(msg.to_string())
    }
}

} // verus!
