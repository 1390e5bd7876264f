//! The sampling lookup tables of the ray tracer: ranking, scrambling and
//! Sobol tables of a blue-noise sampler at 16 samples per pixel, turned into
//! the bytes of three read-only storage buffers.

use vstd::prelude::*;
use crate::image::BufferDesc;
use crate::image::BUFFER_USAGE_STORAGE_BUFFER;

verus! {

/// Number of entries of the ranking table: 128 x 128 tiles of 8 dimensions.
pub const RANKING_TILE_LEN: usize = 131072;

/// Number of entries of the scrambling table: 128 x 128 tiles of 8 dimensions.
pub const SCRAMBLING_TILE_LEN: usize = 131072;

/// Number of entries of the Sobol table: 256 samples of 256 dimensions.
pub const SOBOL_LEN: usize = 65536;

/// Bytes that one table entry takes in a buffer.
pub const ENTRY_BYTES: usize = 4;

/// Entry `i` of `blue_noise_sampler::spp16::RANKING_TILE`.
pub uninterp spec fn ranking_tile_entry(i: int) -> i32;

/// Entry `i` of `blue_noise_sampler::spp16::SCRAMBLING_TILE`.
pub uninterp spec fn scrambling_tile_entry(i: int) -> i32;

/// Entry `i` of `blue_noise_sampler::spp16::SOBOL`.
pub uninterp spec fn sobol_entry(i: int) -> i32;

/// Which of the three tables a buffer holds.
#[derive(Clone, Copy, Debug, PartialEq, Eq, Structural)]
pub enum LutKind {
    RankingTile,
    ScramblingTile,
    Sobol,
}

impl LutKind {
    /// The table as a sequence of its entries.
    pub open spec fn table(self) -> Seq<i32> {
        match self {
            LutKind::RankingTile => Seq::new(
                RANKING_TILE_LEN as nat,
                |i: int| ranking_tile_entry(i),
            ),
            LutKind::ScramblingTile => Seq::new(
                SCRAMBLING_TILE_LEN as nat,
                |i: int| scrambling_tile_entry(i),
            ),
            LutKind::Sobol => Seq::new(SOBOL_LEN as nat, |i: int| sobol_entry(i)),
        }
    }
}

/// The static `blue_noise_sampler::spp16::RANKING_TILE`. Trusted: the slice
/// has 131072 entries, and they are the same on every call, which the
/// contract says by naming entry `i`.
#[verifier::external_body]
fn ranking_tile() -> (r: &'static [i32])
    ensures
        r@.len() == RANKING_TILE_LEN,
        forall|i: int| 0 <= i < r@.len() ==> r@[i] == ranking_tile_entry(i),
{
    blue_noise_sampler::spp16::RANKING_TILE
}

/// The static `blue_noise_sampler::spp16::SCRAMBLING_TILE`. Trusted: the
/// slice has 131072 entries, and they are the same on every call, which the
/// contract says by naming entry `i`.
#[verifier::external_body]
fn scrambling_tile() -> (r: &'static [i32])
    ensures
        r@.len() == SCRAMBLING_TILE_LEN,
        forall|i: int| 0 <= i < r@.len() ==> r@[i] == scrambling_tile_entry(i),
{
    blue_noise_sampler::spp16::SCRAMBLING_TILE
}

/// The static `blue_noise_sampler::spp16::SOBOL`. Trusted: the slice has
/// 65536 entries, and they are the same on every call, which the contract
/// says by naming entry `i`.
#[verifier::external_body]
fn sobol() -> (r: &'static [i32])
    ensures
        r@.len() == SOBOL_LEN,
        forall|i: int| 0 <= i < r@.len() ==> r@[i] == sobol_entry(i),
{
    blue_noise_sampler::spp16::SOBOL
}

/// Byte `k` (0 is the lowest) of the two's-complement form of `x`.
pub open spec fn entry_byte(x: i32, k: int) -> u8 {
    (((x as u32) >> ((8 * k) as u32)) & 0xff) as u8
}

/// The bytes of a table: four per entry, lowest byte first, entries in order.
pub open spec fn table_bytes(v: Seq<i32>) -> Seq<u8> {
    Seq::new(v.len() * 4, |k: int| entry_byte(v[k / 4], k % 4))
}

/// The bytes of a table: four per entry, lowest byte first, entries in order.
pub fn as_byte_slice(v: &[i32]) -> (r: Vec<u8>)
    requires
        v@.len() * ENTRY_BYTES <= usize::MAX,
    ensures
        r@ == table_bytes(v@),
        r@.len() == v@.len() * ENTRY_BYTES,
{
    let n: usize = v.len();
    let mut out: Vec<u8> = Vec::new();
    let mut i: usize = 0;
    while i < n
        invariant
            n == v@.len(),
            n * 4 <= usize::MAX,
            i <= n,
            out@.len() == i * 4,
            forall|k: int| 0 <= k < out@.len() ==> out@[k] == entry_byte(v@[k / 4], k % 4),
        decreases n - i,
    {
        let x: u32 = v[i] as u32;
        let b0: u8 = (x & 0xff) as u8;
        let b1: u8 = ((x >> 8) & 0xff) as u8;
        let b2: u8 = ((x >> 16) & 0xff) as u8;
        let b3: u8 = ((x >> 24) & 0xff) as u8;
        assert(x >> 0 == x) by (bit_vector);
        out.push(b0);
        out.push(b1);
        out.push(b2);
        out.push(b3);
        i = i + 1;
    }
    assert(out@ =~= table_bytes(v@));
    out
}

/// A table made ready for upload: the descriptor of its buffer and the bytes
/// that fill it. Nothing changes it after it is made.
#[derive(Debug, PartialEq, Eq)]
pub struct LutBuffer {
    kind: LutKind,
    desc: BufferDesc,
    contents: Vec<u8>,
}

impl LutBuffer {
    /// Which table this is.
    pub closed spec fn spec_kind(&self) -> LutKind {
        self.kind
    }

    /// The descriptor of the buffer.
    pub closed spec fn spec_desc(&self) -> BufferDesc {
        self.desc
    }

    /// The bytes of the buffer.
    pub closed spec fn spec_contents(&self) -> Seq<u8> {
        self.contents@
    }

    /// The buffer is a storage buffer exactly as large as its contents. This
    /// holds of every buffer.
    #[verifier::type_invariant]
    pub open spec fn wf(&self) -> bool {
        &&& self.spec_desc().usage == BUFFER_USAGE_STORAGE_BUFFER
        &&& self.spec_desc().size == self.spec_contents().len()
    }

    /// Which table this is.
    #[verifier::when_used_as_spec(spec_kind)]
    pub fn kind(&self) -> (r: LutKind)
        ensures
            r == self.spec_kind(),
    {
        self.kind
    }

    /// The descriptor of the buffer.
    #[verifier::when_used_as_spec(spec_desc)]
    pub fn desc(&self) -> (r: BufferDesc)
        ensures
            r == self.spec_desc(),
    {
        self.desc
    }

    /// The bytes of the buffer.
    pub fn contents(&self) -> (r: &[u8])
        ensures
            r@ == self.spec_contents(),
            r@.len() == self.spec_desc().size,
    {
        proof {
            use_type_invariant(self);
        }
        self.contents.as_slice()
    }
}

/// Makes the storage buffer of one table: its size is the number of entries
/// times the size of an entry, and its contents are the entries' bytes.
pub fn make_lut_buffer(kind: LutKind, v: &[i32]) -> (r: LutBuffer)
    requires
        v@.len() * ENTRY_BYTES <= usize::MAX,
    ensures
        r.wf(),
        r.spec_kind() == kind,
        r.spec_desc() == BufferDesc::spec_new(
            (v@.len() * ENTRY_BYTES) as usize,
            BUFFER_USAGE_STORAGE_BUFFER,
        ),
        r.spec_contents() == table_bytes(v@),
{
    let contents = as_byte_slice(v);
    LutBuffer {
        kind,
        desc: BufferDesc::new(v.len() * ENTRY_BYTES, BUFFER_USAGE_STORAGE_BUFFER),
        contents,
    }
}

/// The three buffers of the sampler, made once and only read afterwards.
#[derive(Debug, PartialEq, Eq)]
pub struct SamplingLuts {
    ranking_tile_buf: LutBuffer,
    scrambling_tile_buf: LutBuffer,
    sobol_buf: LutBuffer,
}

impl SamplingLuts {
    /// The buffer of the ranking table.
    pub closed spec fn spec_ranking_tile_buf(&self) -> LutBuffer {
        self.ranking_tile_buf
    }

    /// The buffer of the scrambling table.
    pub closed spec fn spec_scrambling_tile_buf(&self) -> LutBuffer {
        self.scrambling_tile_buf
    }

    /// The buffer of the Sobol table.
    pub closed spec fn spec_sobol_buf(&self) -> LutBuffer {
        self.sobol_buf
    }

    /// What the three buffers are: each a storage buffer of its own table,
    /// holding that table's bytes and sized to them. This holds of every
    /// set of buffers, from the moment it is built.
    #[verifier::type_invariant]
    pub open spec fn wf(&self) -> bool {
        &&& lut_holds(self.spec_ranking_tile_buf(), LutKind::RankingTile)
        &&& lut_holds(self.spec_scrambling_tile_buf(), LutKind::ScramblingTile)
        &&& lut_holds(self.spec_sobol_buf(), LutKind::Sobol)
    }

    /// Builds the three buffers from the sampler's tables.
    pub fn new() -> (r: SamplingLuts)
        ensures
            r.wf(),
    {
        let ranking = ranking_tile();
        let scrambling = scrambling_tile();
        let sobol_table = sobol();
        assert(ranking@ =~= LutKind::RankingTile.table());
        assert(scrambling@ =~= LutKind::ScramblingTile.table());
        assert(sobol_table@ =~= LutKind::Sobol.table());
        SamplingLuts {
            ranking_tile_buf: make_lut_buffer(LutKind::RankingTile, ranking),
            scrambling_tile_buf: make_lut_buffer(LutKind::ScramblingTile, scrambling),
            sobol_buf: make_lut_buffer(LutKind::Sobol, sobol_table),
        }
    }

    /// The buffer of the ranking table.
    pub fn ranking_tile_buf(&self) -> (r: &LutBuffer)
        ensures
            *r == self.spec_ranking_tile_buf(),
            lut_holds(*r, LutKind::RankingTile),
    {
        proof {
            use_type_invariant(self);
        }
        &self.ranking_tile_buf
    }

    /// The buffer of the scrambling table.
    pub fn scrambling_tile_buf(&self) -> (r: &LutBuffer)
        ensures
            *r == self.spec_scrambling_tile_buf(),
            lut_holds(*r, LutKind::ScramblingTile),
    {
        proof {
            use_type_invariant(self);
        }
        &self.scrambling_tile_buf
    }

    /// The buffer of the Sobol table.
    pub fn sobol_buf(&self) -> (r: &LutBuffer)
        ensures
            *r == self.spec_sobol_buf(),
            lut_holds(*r, LutKind::Sobol),
    {
        proof {
            use_type_invariant(self);
        }
        &self.sobol_buf
    }
}

/// `buf` is the storage buffer of table `kind`: it holds that table's bytes
/// and its size is the number of entries times four.
pub open spec fn lut_holds(buf: LutBuffer, kind: LutKind) -> bool {
    &&& buf.wf()
    &&& buf.spec_kind() == kind
    &&& buf.spec_contents() == table_bytes(kind.table())
    &&& buf.spec_desc().size == kind.table().len() * ENTRY_BYTES
}

/// Building the buffers twice gives the same bytes and the same descriptors:
/// two well-formed sets of buffers cannot differ in what they hold.
pub proof fn luts_are_determined(a: SamplingLuts, b: SamplingLuts)
    requires
        a.wf(),
        b.wf(),
    ensures
        a.spec_ranking_tile_buf().spec_contents() == b.spec_ranking_tile_buf().spec_contents(),
        a.spec_scrambling_tile_buf().spec_contents()
            == b.spec_scrambling_tile_buf().spec_contents(),
        a.spec_sobol_buf().spec_contents() == b.spec_sobol_buf().spec_contents(),
        a.spec_ranking_tile_buf().spec_desc() == b.spec_ranking_tile_buf().spec_desc(),
        a.spec_scrambling_tile_buf().spec_desc() == b.spec_scrambling_tile_buf().spec_desc(),
        a.spec_sobol_buf().spec_desc() == b.spec_sobol_buf().spec_desc(),
{
}

} // verus!
