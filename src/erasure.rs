//! The parameters of an erasure code and the checks that its encode and
//! decode make before any buffer is read or written.
//!
//! A code takes `k` data blocks and produces `m` parity blocks, all of one
//! length, over GF(2^w). Blocks are numbered `0..k` for the data and
//! `k..k + m` for the parity.

use vstd::arithmetic::power2::{lemma2_to64, lemma_pow2_strictly_increases, lemma_pow2_unfold, pow2};
use vstd::prelude::*;

use crate::galois::xor_bytes;
use crate::{aligned, CodeWord, Error, ErrorKind, MACHINE_LONG_SIZE};

use iter_tools::Itertools;

verus! {

/// The technique used to encode and decode the data.
///
/// `Matrix` is the default and the most basic one. `BitMatrix` and `Schedule`
/// are faster in most cases; `ScheduleCache` is `Schedule` with every decode
/// schedule computed up front, which is faster still but takes more memory.
#[derive(Debug, Clone, Copy, Default, PartialEq, Eq, Structural)]
pub enum Technique {
    /// Multiplication by the coding matrix over GF(2^w); w must be 8, 16 or 32.
    #[default]
    Matrix,
    /// The coding matrix expanded into a bit-matrix; needs a packet size and
    /// does not support `ReedSolVand`.
    BitMatrix,
    /// The bit-matrix compiled into a list of XOR operations; needs a packet
    /// size and does not support `ReedSolVand`.
    Schedule,
    /// `Schedule` with every decode schedule computed at construction; needs
    /// `m == 2` as well.
    ScheduleCache,
}

/// The method that generates the coding matrix.
#[derive(Debug, Clone, Copy, PartialEq, Eq, Structural)]
pub enum CodingMethod {
    /// Reed-Solomon over a Vandermonde matrix; only with the `Matrix` technique.
    ReedSolVand,
    /// A Cauchy matrix of low bit weight.
    Cauchy,
    /// Not implemented: building a code with it fails with `NotSupported`.
    Liberation,
    /// Not implemented: building a code with it fails with `NotSupported`.
    Liber8tion,
    /// Not implemented: building a code with it fails with `NotSupported`.
    BlaumRoth,
}

impl CodingMethod {
    /// Whether a coding matrix can be generated with this method.
    pub open spec fn is_implemented(self) -> bool {
        self is ReedSolVand || self is Cauchy
    }
}

/// What an [`ErasureCodeBuilder`] has been given so far.
pub struct BuilderSettings {
    pub k: Option<i32>,
    pub m: Option<i32>,
    pub w: CodeWord,
    pub packet_size: Option<i32>,
    pub tech: Option<Technique>,
    pub coding_method: Option<CodingMethod>,
}

/// The error, if any, of a packet size for the techniques that need one: it
/// must be given, positive and a multiple of [`MACHINE_LONG_SIZE`].
pub open spec fn packet_size_fault(packet_size: Option<i32>) -> Option<ErrorKind> {
    match packet_size {
        Some(p) => if p > 0 && aligned(p as nat) {
            None
        } else {
            Some(ErrorKind::InvalidArguments)
        },
        None => Some(ErrorKind::InvalidArguments),
    }
}

impl BuilderSettings {
    /// The technique asked for, `Matrix` when none was.
    pub open spec fn technique(self) -> Technique {
        match self.tech {
            Some(t) => t,
            None => Technique::Matrix,
        }
    }

    /// The error, if any, of the checks that every technique makes: the three
    /// required parameters are set, `k` and `m` are positive, `w` lies in
    /// `1..=32`, `k + m` is at most `2^w` and fits in an `i32`, and the coding
    /// method is implemented.
    pub open spec fn common_fault(self) -> Option<ErrorKind> {
        if self.k is None || self.m is None || self.coding_method is None {
            Some(ErrorKind::InvalidArguments)
        } else {
            let k = self.k->0 as int;
            let m = self.m->0 as int;
            if k <= 0 || m <= 0 {
                Some(ErrorKind::InvalidArguments)
            } else if !(1 <= self.w.bits() <= 32) {
                Some(ErrorKind::InvalidArguments)
            } else if k + m > pow2(self.w.bits()) || k + m > i32::MAX {
                Some(ErrorKind::InvalidArguments)
            } else if !self.coding_method->0.is_implemented() {
                Some(ErrorKind::NotSupported)
            } else {
                None
            }
        }
    }

    /// The error, if any, of the checks of the chosen technique: `Matrix`
    /// needs a word size of 8, 16 or 32; the others do not support
    /// `ReedSolVand` and need a valid packet size, and `ScheduleCache` needs
    /// `m == 2` before its packet size is looked at.
    pub open spec fn technique_fault(self) -> Option<ErrorKind> {
        let method = self.coding_method->0;
        match self.technique() {
            Technique::Matrix => if self.w.is_canonical() {
                None
            } else {
                Some(ErrorKind::NotSupported)
            },
            Technique::ScheduleCache => if method is ReedSolVand || self.m->0 != 2 {
                Some(ErrorKind::NotSupported)
            } else {
                packet_size_fault(self.packet_size)
            },
            _ => if method is ReedSolVand {
                Some(ErrorKind::NotSupported)
            } else {
                packet_size_fault(self.packet_size)
            },
        }
    }

    /// The error, if any, that building a code from these settings meets: the
    /// common checks come before those of the technique.
    pub open spec fn fault(self) -> Option<ErrorKind> {
        if self.common_fault() is Some {
            self.common_fault()
        } else {
            self.technique_fault()
        }
    }
}

/// Whether `s` sets positive `k` and `m` whose sum is at most `2^w` and fits
/// in an `i32`, with `w` in `1..=32`: the counts that every code needs.
pub open spec fn valid_counts(s: BuilderSettings) -> bool {
    &&& s.k matches Some(k) && k >= 1
    &&& s.m matches Some(m) && m >= 1
    &&& 1 <= s.w.bits() <= 32
    &&& s.k->0 + s.m->0 <= pow2(s.w.bits())
    &&& s.k->0 + s.m->0 <= i32::MAX
}

/// A `ScheduleCache` code needs exactly two parity blocks: with valid counts,
/// a Cauchy code and a valid packet size, building it fails with
/// `NotSupported` when `m != 2` and succeeds when `m == 2`; with any other
/// `m` it fails with `NotSupported` whatever the packet size.
pub proof fn lemma_schedule_cache_needs_two_parities(s: BuilderSettings)
    requires
        valid_counts(s),
        s.tech == Some(Technique::ScheduleCache),
    ensures
        s.coding_method is Some && s.coding_method->0.is_implemented() && s.m != Some(2i32)
            ==> s.fault() == Some(ErrorKind::NotSupported),
        s.coding_method == Some(CodingMethod::Cauchy) && packet_size_fault(s.packet_size) is None
            ==> (s.fault() is None <==> s.m == Some(2i32)),
{
}

/// Reed-Solomon Vandermonde codes only work with the `Matrix` technique:
/// with valid counts, building one with `BitMatrix`, `Schedule` or
/// `ScheduleCache` fails with `NotSupported`, whatever the packet size.
pub proof fn lemma_reed_sol_vand_needs_matrix(s: BuilderSettings)
    requires
        valid_counts(s),
        s.coding_method == Some(CodingMethod::ReedSolVand),
        s.tech is Some,
        s.tech != Some(Technique::Matrix),
    ensures
        s.fault() == Some(ErrorKind::NotSupported),
{
}

/// Builds an [`ErasureCode`] from its parameters.
///
/// `k`, `m` and the coding method must be set; `w` defaults to 8, the
/// technique to `Matrix`, and the packet size is needed by every technique
/// but `Matrix`.
#[derive(Debug, Default, Clone, Copy)]
pub struct ErasureCodeBuilder {
    k: Option<i32>,
    m: Option<i32>,
    w: CodeWord,
    packet_size: Option<i32>,
    tech: Option<Technique>,
    coding_method: Option<CodingMethod>,
}

impl View for ErasureCodeBuilder {
    type V = BuilderSettings;

    closed spec fn view(&self) -> BuilderSettings {
        BuilderSettings {
            k: self.k,
            m: self.m,
            w: self.w,
            packet_size: self.packet_size,
            tech: self.tech,
            coding_method: self.coding_method,
        }
    }
}

impl ErasureCodeBuilder {
    /// A builder with nothing set and `w` at 8.
    pub fn new() -> (r: Self)
        ensures
            r@ == (BuilderSettings {
                k: None,
                m: None,
                w: CodeWord::W8,
                packet_size: None,
                tech: None,
                coding_method: None,
            }),
    {
        ErasureCodeBuilder {
            k: None,
            m: None,
            w: CodeWord::W8,
            packet_size: None,
            tech: None,
            coding_method: None,
        }
    }

    /// Sets the number of data blocks.
    pub fn k(self, k: i32) -> (r: Self)
        ensures
            r@ == (BuilderSettings { k: Some(k), ..self@ }),
    {
        ErasureCodeBuilder { k: Some(k), ..self }
    }

    /// Sets the number of parity blocks.
    pub fn m(self, m: i32) -> (r: Self)
        ensures
            r@ == (BuilderSettings { m: Some(m), ..self@ }),
    {
        ErasureCodeBuilder { m: Some(m), ..self }
    }

    /// Sets the code word size; `k + m` must not exceed `2^w`.
    pub fn w(self, w: CodeWord) -> (r: Self)
        ensures
            r@ == (BuilderSettings { w, ..self@ }),
    {
        ErasureCodeBuilder { w, ..self }
    }

    /// Sets the packet size, which must be a multiple of [`MACHINE_LONG_SIZE`].
    pub fn packet_size(self, packet_size: i32) -> (r: Self)
        ensures
            r@ == (BuilderSettings { packet_size: Some(packet_size), ..self@ }),
    {
        ErasureCodeBuilder { packet_size: Some(packet_size), ..self }
    }

    /// Sets the technique.
    pub fn tech(self, tech: Technique) -> (r: Self)
        ensures
            r@ == (BuilderSettings { tech: Some(tech), ..self@ }),
    {
        ErasureCodeBuilder { tech: Some(tech), ..self }
    }

    /// Sets the coding method.
    pub fn coding_method(self, method: CodingMethod) -> (r: Self)
        ensures
            r@ == (BuilderSettings { coding_method: Some(method), ..self@ }),
    {
        ErasureCodeBuilder { coding_method: Some(method), ..self }
    }

    /// Checks the packet size for the techniques that need one.
    pub fn check_packet_size(&self) -> (r: Result<i32, Error>)
        ensures
            r is Ok <==> packet_size_fault(self@.packet_size) is None,
            r matches Ok(p) ==> self@.packet_size == Some(p),
            r matches Err(e) ==> Some(e.kind()) == packet_size_fault(self@.packet_size),
    {
        match self.packet_size {
            None => Err(Error::invalid_arguments("packet_size is required")),
            Some(packet_size) => {
                if packet_size <= 0 {
                    return Err(Error::invalid_arguments("packet_size must be greater than 0"));
                }
                if packet_size as usize % MACHINE_LONG_SIZE != 0 {
                    return Err(
                        Error::invalid_arguments(
                            "packet_size must be a multiple of the machine long size",
                        ),
                    );
                }
                Ok(packet_size)
            },
        }
    }

    /// Builds the code: checks every parameter, in the order of
    /// [`BuilderSettings::fault`], and fails with the first error found.
    pub fn build(self) -> (r: Result<ErasureCode, Error>)
        ensures
            r is Ok <==> self@.fault() is None,
            r matches Err(e) ==> Some(e.kind()) == self@.fault(),
            r matches Ok(code) ==> code.built_from(self@) && code.settings().fault() is None,
    {
        let k = match self.k {
            Some(k) => k,
            None => return Err(Error::invalid_arguments("k is required")),
        };
        let m = match self.m {
            Some(m) => m,
            None => return Err(Error::invalid_arguments("m is required")),
        };
        let tech = match self.tech {
            Some(tech) => tech,
            None => Technique::Matrix,
        };
        let method = match self.coding_method {
            Some(method) => method,
            None => return Err(Error::invalid_arguments("coding_method is required")),
        };
        let w = self.w;
        if k <= 0 {
            return Err(Error::invalid_arguments("k must be greater than 0"));
        }
        if m <= 0 {
            return Err(Error::invalid_arguments("m must be greater than 0"));
        }
        let bits = w.to_u8();
        if bits == 0 || bits > 32 {
            return Err(Error::invalid_arguments("w must lie in 1..=32"));
        }
        let total = k as i64 + m as i64;
        if total as u64 > field_size(bits) {
            return Err(Error::invalid_arguments("k + m must not exceed 2^w"));
        }
        if total > i32::MAX as i64 {
            return Err(Error::invalid_arguments("k + m must fit in an i32"));
        }
        match method {
            CodingMethod::ReedSolVand | CodingMethod::Cauchy => {},
            _ => {
                return Err(
                    Error::not_supported("Liberation, Liber8tion and BlaumRoth are not implemented"),
                );
            },
        }
        let inner = match tech {
            Technique::Matrix => {
                match bits {
                    8 | 16 | 32 => TechInner::Matrix,
                    _ => {
                        return Err(
                            Error::not_supported("the Matrix technique needs w in {8, 16, 32}"),
                        );
                    },
                }
            },
            Technique::BitMatrix => {
                if let CodingMethod::ReedSolVand = method {
                    return Err(Error::not_supported("BitMatrix is not supported for ReedSolVand"));
                }
                match self.check_packet_size() {
                    Ok(p) => TechInner::BitMatrix(p),
                    Err(e) => return Err(e),
                }
            },
            Technique::Schedule => {
                if let CodingMethod::ReedSolVand = method {
                    return Err(Error::not_supported("Schedule is not supported for ReedSolVand"));
                }
                match self.check_packet_size() {
                    Ok(p) => TechInner::Schedule(p),
                    Err(e) => return Err(e),
                }
            },
            Technique::ScheduleCache => {
                if let CodingMethod::ReedSolVand = method {
                    return Err(
                        Error::not_supported("ScheduleCache is not supported for ReedSolVand"),
                    );
                }
                if m != 2 {
                    return Err(Error::not_supported("ScheduleCache is only supported for m = 2"));
                }
                match self.check_packet_size() {
                    Ok(p) => TechInner::ScheduleCache(p),
                    Err(e) => return Err(e),
                }
            },
        };
        Ok(ErasureCode { k, m, w, tech: inner, method })
    }
}

/// `2^w`, the number of elements of GF(2^w).
fn field_size(w: u8) -> (r: u64)
    requires
        w <= 32,
    ensures
        r as nat == pow2(w as nat),
{
    proof {
        lemma2_to64();
    }
    let mut p: u64 = 1;
    let mut i: u8 = 0;
    while i < w
        invariant
            i <= w <= 32,
            p as nat == pow2(i as nat),
            pow2(32) == 0x1_0000_0000,
        decreases w - i,
    {
        proof {
            lemma_pow2_unfold((i + 1) as nat);
            if i + 1 < 32 {
                lemma_pow2_strictly_increases((i + 1) as nat, 32);
            }
        }
        p = p * 2;
        i = i + 1;
    }
    p
}

/// What each technique keeps beside the coding matrix: the packet size of
/// the techniques that work on packets.
#[derive(Debug, Clone, Copy)]
enum TechInner {
    Matrix,
    BitMatrix(i32),
    Schedule(i32),
    ScheduleCache(i32),
}

/// An erasure code with checked parameters.
///
/// It holds `k`, `m`, `w`, the technique with its packet size and the coding
/// method; the parameters always pass every check of
/// [`ErasureCodeBuilder::build`], and never change.
#[derive(Debug)]
pub struct ErasureCode {
    k: i32,
    m: i32,
    w: CodeWord,
    tech: TechInner,
    method: CodingMethod,
}

impl ErasureCode {
    /// The settings that this code stands for.
    pub open spec fn settings(&self) -> BuilderSettings {
        BuilderSettings {
            k: Some(self.k()),
            m: Some(self.m()),
            w: self.w(),
            packet_size: self.packet_size(),
            tech: Some(self.tech()),
            coding_method: Some(self.coding_method()),
        }
    }

    /// Whether this code is what building from `s` gives: the settings of
    /// `s`, where the `Matrix` technique drops the packet size.
    pub open spec fn built_from(&self, s: BuilderSettings) -> bool {
        &&& Some(self.k()) == s.k
        &&& Some(self.m()) == s.m
        &&& self.w() == s.w
        &&& self.tech() == s.technique()
        &&& Some(self.coding_method()) == s.coding_method
        &&& self.packet_size() == if self.tech() is Matrix {
            None
        } else {
            s.packet_size
        }
    }

    #[verifier::type_invariant]
    closed spec fn inv(self) -> bool {
        &&& self.settings().fault() is None
        &&& (self.tech is Matrix <==> self.packet_size() is None)
    }

    /// The number of data blocks.
    pub closed spec fn spec_k(&self) -> i32 {
        self.k
    }

    /// The number of parity blocks.
    pub closed spec fn spec_m(&self) -> i32 {
        self.m
    }

    /// The code word size.
    pub closed spec fn spec_w(&self) -> CodeWord {
        self.w
    }

    /// The coding method.
    pub closed spec fn spec_coding_method(&self) -> CodingMethod {
        self.method
    }

    /// The technique.
    pub closed spec fn spec_tech(&self) -> Technique {
        match self.tech {
            TechInner::Matrix => Technique::Matrix,
            TechInner::BitMatrix(_) => Technique::BitMatrix,
            TechInner::Schedule(_) => Technique::Schedule,
            TechInner::ScheduleCache(_) => Technique::ScheduleCache,
        }
    }

    /// The packet size of the techniques that work on packets.
    pub closed spec fn spec_packet_size(&self) -> Option<i32> {
        match self.tech {
            TechInner::Matrix => None,
            TechInner::BitMatrix(p) => Some(p),
            TechInner::Schedule(p) => Some(p),
            TechInner::ScheduleCache(p) => Some(p),
        }
    }

    /// Returns the number of data blocks.
    #[verifier::when_used_as_spec(spec_k)]
    pub fn k(&self) -> (r: i32)
        ensures
            r == self.spec_k(),
            r >= 1,
    {
        proof {
            use_type_invariant(self);
        }
        self.k
    }

    /// Returns the number of parity blocks.
    #[verifier::when_used_as_spec(spec_m)]
    pub fn m(&self) -> (r: i32)
        ensures
            r == self.spec_m(),
            r >= 1,
    {
        proof {
            use_type_invariant(self);
        }
        self.m
    }

    /// Returns the code word size.
    #[verifier::when_used_as_spec(spec_w)]
    pub fn w(&self) -> (r: CodeWord)
        ensures
            r == self.spec_w(),
    {
        self.w
    }

    /// Returns the technique.
    #[verifier::when_used_as_spec(spec_tech)]
    pub fn tech(&self) -> (r: Technique)
        ensures
            r == self.spec_tech(),
    {
        match self.tech {
            TechInner::Matrix => Technique::Matrix,
            TechInner::BitMatrix(_) => Technique::BitMatrix,
            TechInner::Schedule(_) => Technique::Schedule,
            TechInner::ScheduleCache(_) => Technique::ScheduleCache,
        }
    }

    /// Returns the coding method.
    #[verifier::when_used_as_spec(spec_coding_method)]
    pub fn coding_method(&self) -> (r: CodingMethod)
        ensures
            r == self.spec_coding_method(),
            r.is_implemented(),
    {
        proof {
            use_type_invariant(self);
        }
        self.method
    }

    /// Returns the packet size, which every technique but `Matrix` has.
    #[verifier::when_used_as_spec(spec_packet_size)]
    pub fn packet_size(&self) -> (r: Option<i32>)
        ensures
            r == self.spec_packet_size(),
    {
        match self.tech {
            TechInner::Matrix => None,
            TechInner::BitMatrix(p) => Some(p),
            TechInner::Schedule(p) => Some(p),
            TechInner::ScheduleCache(p) => Some(p),
        }
    }
}

/// The lengths of a sequence of blocks.
pub open spec fn lengths(blocks: Seq<Vec<u8>>) -> Seq<nat> {
    blocks.map_values(|b: Vec<u8>| b@.len())
}

/// The first fault among block lengths `lens` when every block must be `len`
/// bytes long and aligned: a misaligned block is `NotAligned`, an aligned
/// block of another length is `InvalidArguments`.
pub open spec fn shape_fault(lens: Seq<nat>, len: nat) -> Option<ErrorKind>
    decreases lens.len(),
{
    if lens.len() == 0 {
        None
    } else if !aligned(lens[0]) {
        Some(ErrorKind::NotAligned(lens[0] as usize))
    } else if lens[0] != len {
        Some(ErrorKind::InvalidArguments)
    } else {
        shape_fault(lens.drop_first(), len)
    }
}

/// The fault of two runs of blocks checked one after the other is the fault
/// of the first run, or else that of the second.
proof fn lemma_shape_fault_append(a: Seq<nat>, b: Seq<nat>, len: nat)
    ensures
        shape_fault(a + b, len) == if shape_fault(a, len) is Some {
            shape_fault(a, len)
        } else {
            shape_fault(b, len)
        },
    decreases a.len(),
{
    if a.len() == 0 {
        assert(a + b =~= b);
    } else {
        assert((a + b).drop_first() =~= a.drop_first() + b);
        lemma_shape_fault_append(a.drop_first(), b, len);
    }
}

/// Whether the integers of `s` strictly increase.
pub open spec fn strictly_increasing(s: Seq<i32>) -> bool {
    forall|i: int, j: int| 0 <= i < j < s.len() ==> s[i] < s[j]
}

/// Whether `list` is the erasure list of `erased`: its distinct indices in
/// increasing order, closed by `-1`.
pub open spec fn is_erasure_list(list: Seq<i32>, erased: Seq<i32>) -> bool {
    &&& list.len() >= 1
    &&& list.last() == -1
    &&& strictly_increasing(list.drop_last())
    &&& list.drop_last().to_set() == erased.to_set()
}

/// Byte `j` of the XOR of the first `n` blocks.
pub open spec fn xor_prefix(blocks: Seq<Vec<u8>>, n: nat, j: int) -> u8
    decreases n,
{
    if n == 0 {
        0
    } else {
        xor_prefix(blocks, (n - 1) as nat, j) ^ blocks[n - 1]@[j]
    }
}

/// The XOR of all the blocks, over their first `len` bytes.
pub open spec fn xor_parity(blocks: Seq<Vec<u8>>, len: nat) -> Seq<u8> {
    Seq::new(len, |j: int| xor_prefix(blocks, blocks.len(), j))
}

/// Byte `j` of the XOR of the first `n` blocks but block `lost`.
pub open spec fn xor_prefix_except(blocks: Seq<Vec<u8>>, n: nat, lost: int, j: int) -> u8
    decreases n,
{
    if n == 0 {
        0
    } else if n - 1 == lost {
        xor_prefix_except(blocks, (n - 1) as nat, lost, j)
    } else {
        xor_prefix_except(blocks, (n - 1) as nat, lost, j) ^ blocks[n - 1]@[j]
    }
}

/// The XOR of all the blocks but block `lost`, over their first `len` bytes.
pub open spec fn xor_parity_except(blocks: Seq<Vec<u8>>, len: nat, lost: int) -> Seq<u8> {
    Seq::new(len, |j: int| xor_prefix_except(blocks, blocks.len(), lost, j))
}

/// The XOR of the first `n` blocks is that of all of them but `lost`, XORed
/// with block `lost` when it is among them.
proof fn lemma_xor_prefix_split(blocks: Seq<Vec<u8>>, n: nat, lost: int, j: int)
    requires
        n <= blocks.len(),
    ensures
        xor_prefix(blocks, n, j) == xor_prefix_except(blocks, n, lost, j) ^ if 0 <= lost < n {
            blocks[lost]@[j]
        } else {
            0u8
        },
    decreases n,
{
    if n == 0 {
        assert(0u8 ^ 0u8 == 0u8) by (bit_vector);
    } else {
        lemma_xor_prefix_split(blocks, (n - 1) as nat, lost, j);
        let e = xor_prefix_except(blocks, (n - 1) as nat, lost, j);
        let b = blocks[n - 1]@[j];
        if n - 1 == lost {
            assert(e ^ 0u8 == e) by (bit_vector);
        } else {
            let t = if 0 <= lost < n - 1 {
                blocks[lost]@[j]
            } else {
                0u8
            };
            assert((e ^ t) ^ b == (e ^ b) ^ t) by (bit_vector);
        }
    }
}

/// XORing the parity that `encode_parity` computes with every data block but
/// one gives that block back: the XOR parity recovers any single lost data
/// block.
pub proof fn lemma_xor_parity_recovers_lost_block(blocks: Seq<Vec<u8>>, len: nat, lost: int)
    requires
        0 <= lost < blocks.len(),
        forall|b: int| 0 <= b < blocks.len() ==> (#[trigger] blocks[b])@.len() == len,
    ensures
        xor_bytes(xor_parity(blocks, len), xor_parity_except(blocks, len, lost)) == blocks[lost]@,
{
    let r = xor_bytes(xor_parity(blocks, len), xor_parity_except(blocks, len, lost));
    assert forall|j: int| 0 <= j < len implies r[j] == blocks[lost]@[j] by {
        lemma_xor_prefix_split(blocks, blocks.len(), lost, j);
        let e = xor_prefix_except(blocks, blocks.len(), lost, j);
        let l = blocks[lost]@[j];
        assert((e ^ l) ^ e == l) by (bit_vector);
    }
    assert(r =~= blocks[lost]@);
}

/// Relies on `Itertools::sorted` (itertools, through iter_tools): the items
/// are collected into a `Vec` and sorted in ascending order by `slice::sort`.
#[verifier::external_body]
fn sorted_indices(erased: &[i32]) -> (r: Vec<i32>)
    ensures
        r@.to_multiset() == erased@.to_multiset(),
        forall|i: int, j: int| 0 <= i <= j < r@.len() ==> r@[i] <= r@[j],
{
    erased.iter().copied().sorted().collect()
}

/// Relies on `Itertools::dedup` (itertools, through iter_tools): of each run
/// of equal consecutive items only the first is kept, so a sorted input comes
/// out strictly increasing with the same items.
#[verifier::external_body]
fn dedup_sorted(v: Vec<i32>) -> (r: Vec<i32>)
    requires
        forall|i: int, j: int| 0 <= i <= j < v@.len() ==> v@[i] <= v@[j],
    ensures
        strictly_increasing(r@),
        r@.to_set() == v@.to_set(),
{
    v.into_iter().dedup().collect()
}

/// Checks that every block is `len` bytes long and aligned, in order.
fn check_lengths(blocks: &[Vec<u8>], len: usize) -> (r: Result<(), Error>)
    ensures
        r is Ok <==> shape_fault(lengths(blocks@), len as nat) is None,
        r matches Err(e) ==> Some(e.kind()) == shape_fault(lengths(blocks@), len as nat),
{
    let mut i: usize = 0;
    assert(lengths(blocks@).skip(0) =~= lengths(blocks@));
    while i < blocks.len()
        invariant
            0 <= i <= blocks@.len(),
            shape_fault(lengths(blocks@), len as nat) == shape_fault(
                lengths(blocks@).skip(i as int),
                len as nat,
            ),
        decreases blocks@.len() - i,
    {
        let n = blocks[i].len();
        assert(lengths(blocks@).skip(i as int)[0] == n);
        if n % MACHINE_LONG_SIZE != 0 {
            return Err(Error::NotAligned(n));
        }
        if n != len {
            return Err(Error::invalid_arguments("all blocks must have the same length"));
        }
        assert(lengths(blocks@).skip(i as int).drop_first() =~= lengths(blocks@).skip(i + 1));
        i = i + 1;
    }
    assert(lengths(blocks@).skip(i as int) =~= Seq::<nat>::empty());
    Ok(())
}

impl ErasureCode {
    /// The error, if any, of the common length `len` of the blocks: the native
    /// routines take it as a C `int`, and the techniques that work on packets
    /// need it to be a whole number of `packet_size * w` bytes.
    pub open spec fn block_length_fault(&self, len: nat) -> Option<ErrorKind> {
        if len > i32::MAX {
            Some(ErrorKind::InvalidArguments)
        } else if self.packet_size() matches Some(p) && len % (p * self.w().bits()) as nat != 0 {
            Some(ErrorKind::InvalidArguments)
        } else {
            None
        }
    }

    /// The error, if any, of `k` data blocks and `m` parity blocks of one
    /// aligned length: the counts are checked first, then each data block and
    /// each parity block in order against the length of the first data block,
    /// then that length.
    pub open spec fn buffer_fault(&self, data: Seq<Vec<u8>>, parity: Seq<Vec<u8>>) -> Option<
        ErrorKind,
    > {
        if data.len() != self.k() as int || parity.len() != self.m() as int {
            Some(ErrorKind::InvalidArguments)
        } else if shape_fault(lengths(data) + lengths(parity), data[0]@.len()) is Some {
            shape_fault(lengths(data) + lengths(parity), data[0]@.len())
        } else {
            self.block_length_fault(data[0]@.len())
        }
    }

    /// Whether `i` numbers a block of this code.
    pub open spec fn is_block_index(&self, i: i32) -> bool {
        0 <= i < self.k() + self.m()
    }

    /// The error, if any, of a set of erased blocks: an index that numbers no
    /// block, else more distinct indices than parity blocks.
    pub open spec fn erasure_fault(&self, erased: Seq<i32>) -> Option<ErrorKind> {
        if exists|j: int| 0 <= j < erased.len() && !self.is_block_index(#[trigger] erased[j]) {
            Some(ErrorKind::InvalidArguments)
        } else if erased.to_set().len() > self.m() {
            Some(ErrorKind::TooManyErasure(erased.to_set().len() as i32, self.m()))
        } else {
            None
        }
    }

    /// The error, if any, of a decode: the erasures are checked before the
    /// buffers.
    pub open spec fn decode_fault(
        &self,
        data: Seq<Vec<u8>>,
        parity: Seq<Vec<u8>>,
        erased: Seq<i32>,
    ) -> Option<ErrorKind> {
        if self.erasure_fault(erased) is Some {
            self.erasure_fault(erased)
        } else {
            self.buffer_fault(data, parity)
        }
    }

    /// Checks the shape of the buffers of an encode or a decode: `k` data
    /// blocks and `m` parity blocks, all of the length of the first data
    /// block, which is a multiple of [`MACHINE_LONG_SIZE`], fits in an `i32`
    /// and, with packets, is a multiple of `packet_size * w`.
    pub fn check_buffers(&self, data: &[Vec<u8>], parity: &[Vec<u8>]) -> (r: Result<(), Error>)
        ensures
            r is Ok <==> self.buffer_fault(data@, parity@) is None,
            r matches Err(e) ==> Some(e.kind()) == self.buffer_fault(data@, parity@),
    {
        proof {
            use_type_invariant(self);
        }
        if data.len() != self.k as usize {
            return Err(Error::invalid_arguments("there must be k data blocks"));
        }
        if parity.len() != self.m as usize {
            return Err(Error::invalid_arguments("there must be m parity blocks"));
        }
        let len = data[0].len();
        proof {
            lemma_shape_fault_append(lengths(data@), lengths(parity@), len as nat);
        }
        match check_lengths(data, len) {
            Ok(()) => {},
            Err(e) => return Err(e),
        }
        match check_lengths(parity, len) {
            Ok(()) => {},
            Err(e) => return Err(e),
        }
        if len > i32::MAX as usize {
            return Err(Error::invalid_arguments("blocks must be shorter than 2^31 bytes"));
        }
        if let Some(p) = self.packet_size() {
            let bits = self.w.to_u8();
            assert(1 <= p as u64 * bits as u64 <= 0x7fff_ffff * 32) by (nonlinear_arith)
                requires
                    0 < p,
                    1 <= bits <= 32,
            ;
            let unit = p as u64 * bits as u64;
            if len as u64 % unit != 0 {
                return Err(
                    Error::invalid_arguments("blocks must hold a whole number of packets per word"),
                );
            }
        }
        Ok(())
    }

    /// Sanitises the indices of the erased blocks: sorts them, drops
    /// repeats and checks them, and gives the list that the native decoders
    /// take, closed by `-1`.
    pub fn sanitize_erasures(&self, erased: &[i32]) -> (r: Result<Vec<i32>, Error>)
        ensures
            r is Ok <==> self.erasure_fault(erased@) is None,
            r matches Ok(list) ==> is_erasure_list(list@, erased@),
            r matches Err(e) ==> Some(e.kind()) == self.erasure_fault(erased@),
    {
        proof {
            use_type_invariant(self);
        }
        let sorted = sorted_indices(erased);
        proof {
            assert forall|x: i32| sorted@.contains(x) <==> erased@.contains(x) by {
                vstd::seq_lib::to_multiset_contains(sorted@, x);
                vstd::seq_lib::to_multiset_contains(erased@, x);
            }
            assert(sorted@.to_set() =~= erased@.to_set());
        }
        let mut unique = dedup_sorted(sorted);
        let bound = self.k as i64 + self.m as i64;
        let mut i: usize = 0;
        while i < unique.len()
            invariant
                0 <= i <= unique@.len(),
                strictly_increasing(unique@),
                unique@.to_set() == erased@.to_set(),
                bound == self.k() + self.m(),
                forall|j: int| 0 <= j < i ==> self.is_block_index(#[trigger] unique@[j]),
                forall|j: int| 0 <= j < i ==> #[trigger] unique@[j] >= j,
            decreases unique@.len() - i,
        {
            let e = unique[i];
            if e < 0 || e as i64 >= bound {
                proof {
                    assert(unique@.to_set().contains(e));
                    assert(erased@.to_set().contains(e));
                    let j = choose|j: int| 0 <= j < erased@.len() && erased@[j] == e;
                    assert(!self.is_block_index(erased@[j]));
                }
                return Err(Error::invalid_arguments("erased index out of bounds"));
            }
            if i > 0 {
                assert(unique@[i - 1] < unique@[i as int]);
            }
            i = i + 1;
        }
        proof {
            assert forall|j: int| 0 <= j < erased@.len() implies self.is_block_index(
                #[trigger] erased@[j],
            ) by {
                assert(erased@.to_set().contains(erased@[j]));
                assert(unique@.to_set().contains(erased@[j]));
                let t = choose|t: int| 0 <= t < unique@.len() && unique@[t] == erased@[j];
                assert(self.is_block_index(unique@[t]));
            }
            assert(unique@.no_duplicates()) by {
                assert forall|a: int, b: int|
                    0 <= a < unique@.len() && 0 <= b < unique@.len() && a != b implies unique@[a]
                    != unique@[b] by {
                    if a < b {
                        assert(unique@[a] < unique@[b]);
                    } else {
                        assert(unique@[b] < unique@[a]);
                    }
                }
            }
            unique@.unique_seq_to_set();
            if unique@.len() > 0 {
                assert(unique@[unique@.len() - 1] >= unique@.len() - 1);
                assert(self.is_block_index(unique@[unique@.len() - 1]));
            }
        }
        let count = unique.len();
        if count > self.m as usize {
            return Err(Error::too_many_erasure(count as i32, self.m));
        }
        let ghost before = unique@;
        unique.push(-1);
        proof {
            assert(unique@.drop_last() =~= before);
        }
        Ok(unique)
    }

    /// Checks the erasures and then the buffers of a decode, and gives the
    /// list of erased blocks that the native decoders take.
    pub fn plan_decode(&self, data: &[Vec<u8>], parity: &[Vec<u8>], erased: &[i32]) -> (r: Result<
        Vec<i32>,
        Error,
    >)
        ensures
            r is Ok <==> self.decode_fault(data@, parity@, erased@) is None,
            r matches Ok(list) ==> is_erasure_list(list@, erased@),
            r matches Err(e) ==> Some(e.kind()) == self.decode_fault(data@, parity@, erased@),
    {
        let list = match self.sanitize_erasures(erased) {
            Ok(list) => list,
            Err(e) => return Err(e),
        };
        match self.check_buffers(data, parity) {
            Ok(()) => Ok(list),
            Err(e) => Err(e),
        }
    }

    /// The `row_k_ones` flag of the native decoders: 1 for `ReedSolVand`,
    /// whose first parity row is the plain XOR of the data blocks.
    pub fn row_k_ones(&self) -> (r: i32)
        ensures
            r == if self.coding_method() is ReedSolVand {
                1i32
            } else {
                0i32
            },
    {
        match self.method {
            CodingMethod::ReedSolVand => 1,
            _ => 0,
        }
    }

    /// The result of a decode from the status that a native decoder returned:
    /// any status but 0 means that the system of the surviving blocks could
    /// not be solved.
    pub fn decode_status(ret: i32) -> (r: Result<(), Error>)
        ensures
            r is Ok <==> ret == 0,
            r matches Err(e) ==> e.kind() == ErrorKind::Other,
    {
        if ret != 0 {
            return Err(Error::other("failed to decode"));
        }
        Ok(())
    }

    /// Computes into `parity` the XOR of the `k` data blocks `source`, each
    /// of which must be as long as `parity` and aligned.
    pub fn encode_parity(&self, source: &[Vec<u8>], parity: &mut [u8]) -> (r: Result<(), Error>)
        ensures
            r is Ok <==> source@.len() == self.k() as int && shape_fault(
                lengths(source@),
                old(parity)@.len(),
            ) is None,
            r matches Err(e) ==> {
                &&& Some(e.kind()) == if source@.len() != self.k() as int {
                    Some(ErrorKind::InvalidArguments)
                } else {
                    shape_fault(lengths(source@), old(parity)@.len())
                }
                &&& final(parity)@ == old(parity)@
            },
            r is Ok ==> final(parity)@ == xor_parity(source@, old(parity)@.len()),
    {
        proof {
            use_type_invariant(self);
        }
        if source.len() != self.k as usize {
            return Err(Error::invalid_arguments("source must have k blocks"));
        }
        let n = parity.len();
        match check_lengths(source, n) {
            Ok(()) => {},
            Err(e) => return Err(e),
        }
        proof {
            assert forall|b: int| 0 <= b < source@.len() implies (#[trigger] source@[b])@.len()
                == n by {
                lemma_shape_fault_all(lengths(source@), n as nat, b);
            }
        }
        let first = &source[0];
        let mut j: usize = 0;
        while j < n
            invariant
                n == parity@.len(),
                first@.len() == n,
                source@.len() >= 1,
                first == source@[0],
                forall|t: int| 0 <= t < j ==> parity@[t] == xor_prefix(source@, 1, t),
            decreases n - j,
        {
            parity[j] = first[j];
            proof {
                let x = first@[j as int];
                assert(0u8 ^ x == x) by (bit_vector);
                assert(xor_prefix(source@, 0, j as int) == 0u8);
            }
            j = j + 1;
        }
        let mut b: usize = 1;
        while b < source.len()
            invariant
                1 <= b <= source@.len(),
                n == parity@.len(),
                forall|c: int| 0 <= c < source@.len() ==> (#[trigger] source@[c])@.len() == n,
                forall|t: int| 0 <= t < n ==> parity@[t] == xor_prefix(source@, b as nat, t),
            decreases source@.len() - b,
        {
            let block = &source[b];
            let mut j: usize = 0;
            while j < n
                invariant
                    1 <= b < source@.len(),
                    n == parity@.len(),
                    block == source@[b as int],
                    block@.len() == n,
                    forall|t: int| 0 <= t < j ==> parity@[t] == xor_prefix(source@, (b + 1) as nat, t),
                    forall|t: int| j <= t < n ==> parity@[t] == xor_prefix(source@, b as nat, t),
                decreases n - j,
            {
                parity[j] = parity[j] ^ block[j];
                j = j + 1;
            }
            b = b + 1;
        }
        assert(parity@ =~= xor_parity(source@, n as nat));
        Ok(())
    }
}

/// A decode with an erased index that numbers no block, negative or at
/// least `k + m`, fails with `InvalidArguments`, whatever the buffers.
pub proof fn lemma_decode_rejects_index_out_of_range(
    code: ErasureCode,
    data: Seq<Vec<u8>>,
    parity: Seq<Vec<u8>>,
    erased: Seq<i32>,
    j: int,
)
    requires
        0 <= j < erased.len(),
        erased[j] < 0 || erased[j] >= code.k() + code.m(),
    ensures
        code.decode_fault(data, parity, erased) == Some(ErrorKind::InvalidArguments),
{
    assert(!code.is_block_index(erased[j]));
}

/// A decode whose erased indices all number blocks, but hold more distinct
/// ones than there are parity blocks, fails with `TooManyErasure` before any
/// buffer is looked at.
pub proof fn lemma_decode_rejects_too_many_erasures(
    code: ErasureCode,
    data: Seq<Vec<u8>>,
    parity: Seq<Vec<u8>>,
    erased: Seq<i32>,
)
    requires
        forall|j: int| 0 <= j < erased.len() ==> code.is_block_index(#[trigger] erased[j]),
        erased.to_set().len() > code.m(),
    ensures
        code.decode_fault(data, parity, erased) == Some(
            ErrorKind::TooManyErasure(erased.to_set().len() as i32, code.m()),
        ),
{
}

/// Blocks whose common length is not a multiple of [`MACHINE_LONG_SIZE`]
/// make an encode, and a decode with valid erasures, fail with `NotAligned`
/// carrying that length, though their numbers and lengths are right.
pub proof fn lemma_misaligned_blocks_rejected(
    code: ErasureCode,
    data: Seq<Vec<u8>>,
    parity: Seq<Vec<u8>>,
    erased: Seq<i32>,
    len: nat,
)
    requires
        code.settings().fault() is None,
        data.len() == code.k(),
        parity.len() == code.m(),
        forall|b: int| 0 <= b < data.len() ==> (#[trigger] data[b])@.len() == len,
        forall|b: int| 0 <= b < parity.len() ==> (#[trigger] parity[b])@.len() == len,
        !aligned(len),
    ensures
        code.buffer_fault(data, parity) == Some(ErrorKind::NotAligned(len as usize)),
        code.erasure_fault(erased) is None ==> code.decode_fault(data, parity, erased) == Some(
            ErrorKind::NotAligned(len as usize),
        ),
{
    assert(data.len() > 0);
    assert((lengths(data) + lengths(parity))[0] == len);
}

/// Every block of a run without fault has the required length.
proof fn lemma_shape_fault_all(lens: Seq<nat>, len: nat, b: int)
    requires
        shape_fault(lens, len) is None,
        0 <= b < lens.len(),
    ensures
        lens[b] == len,
    decreases lens.len(),
{
    if b > 0 {
        lemma_shape_fault_all(lens.drop_first(), len, b - 1);
    }
}

} // verus!
