//! The honeycomb world: optical phases, the seeds that carry them, and the
//! stepwise generator that fills a world in a fixed order of draws.
//!
//! A world is generated from one seeded stream of pseudorandom numbers. The
//! order in which values are taken from the stream decides the result, so the
//! generator dictates it: every phase in index order, then every cell in index
//! order, and within a phase or a cell the quantities in the order of
//! [`phase_draw_order`] and [`cell_draw_order`]. The caller draws the scalars
//! from [`WorldGenerator::rng`] when the generator asks for them; the phase of
//! each cell is drawn here, right after its position.

use crate::records::{bits_of, is_memory_image, memory_image, push_scalars};
use crate::scalar::{lemma_between_finite_is_finite, Scalar, ScalarRange};
use rand::Rng;
use rand::SeedableRng;
use rand_chacha::ChaCha8Rng;
use vstd::prelude::*;

verus! {

/// Words in the storage record of one phase.
pub const PHASE_RECORD_WORDS: usize = 16;

/// Bytes in the storage record of one phase.
pub const PHASE_RECORD_BYTES: u64 = 64;

/// Words in the storage record of one cell.
pub const CELL_RECORD_WORDS: usize = 4;

/// Bytes in the storage record of one cell.
pub const CELL_RECORD_BYTES: u64 = 16;

/// The stream of pseudorandom numbers that worlds are drawn from.
#[verifier::external_type_specification]
#[verifier::external_body]
pub struct ExChaCha8Rng(ChaCha8Rng);

/// A material class with its optical properties.
#[derive(Clone, Copy, Debug)]
pub struct VendekPhase {
    /// Red, green, blue, and the density used by the march.
    pub color_density: [Scalar; 4],
    /// Three anisotropic scattering coefficients and the mean free path.
    pub scattering: [Scalar; 4],
    /// Oscillation frequency, amplitude, damping, coupling strength.
    pub membrane_params: [Scalar; 4],
    /// Identity of the phase: its position among the phases of its world.
    pub phase_id: u32,
}

/// A seed point; space nearest to it belongs to its phase.
#[derive(Clone, Copy, Debug)]
pub struct HoneycombCell {
    /// Position in world space.
    pub position: [Scalar; 3],
    /// Index of the cell's phase among the phases of its world.
    pub phase_index: u32,
}

/// Phases and the cells that refer to them.
#[derive(Debug)]
pub struct HoneycombWorld {
    pub phases: Vec<VendekPhase>,
    pub cells: Vec<HoneycombCell>,
}

/// Why a world cannot be generated, or a step was not taken.
#[derive(Clone, Copy, Debug, PartialEq, Eq, Structural)]
pub enum WorldError {
    /// Cells were asked for, but no phase that they could refer to.
    NoPhases,
    /// More phases were asked for than a phase index can tell apart.
    TooManyPhases,
    /// The step is not the one the generator is waiting for.
    OutOfTurn,
    /// A scalar lies outside the bounds of its quantity.
    OutOfBounds,
    /// The phase index names no phase of the world.
    UnknownPhase,
}

/// The quantities of a world that are drawn from the stream, each within
/// fixed bounds.
#[derive(Clone, Copy, Debug, PartialEq, Eq, Structural)]
pub enum Quantity {
    /// Density of a phase: 0.02 to 0.08.
    Density,
    /// Each scattering coefficient of a phase: 0.1 to 1.
    Scattering,
    /// Mean free path of a phase: 0.5 to 2.
    MeanFreePath,
    /// Oscillation frequency of a phase's membrane: 0.5 to 5.
    Frequency,
    /// Amplitude of a phase's membrane: 0.01 to 0.1.
    Amplitude,
    /// Damping of a phase's membrane: 0.1 to 0.5.
    Damping,
    /// Coupling strength of a phase's membrane: 0.1 to 1.
    Coupling,
    /// Each coordinate of a cell: -10 to 10.
    Coordinate,
}

/// The range whose ends have the given encodings.
pub open spec fn between(low: u32, high: u32) -> ScalarRange {
    ScalarRange { low: Scalar { bits: low }, high: Scalar { bits: high } }
}

/// The bounds of a quantity: the lower one included, the upper one not.
pub open spec fn bounds(quantity: Quantity) -> ScalarRange {
    match quantity {
        Quantity::Density => between(0x3CA3_D70A, 0x3DA3_D70A),
        Quantity::Scattering => between(0x3DCC_CCCD, 0x3F80_0000),
        Quantity::MeanFreePath => between(0x3F00_0000, 0x4000_0000),
        Quantity::Frequency => between(0x3F00_0000, 0x40A0_0000),
        Quantity::Amplitude => between(0x3C23_D70A, 0x3DCC_CCCD),
        Quantity::Damping => between(0x3DCC_CCCD, 0x3F00_0000),
        Quantity::Coupling => between(0x3DCC_CCCD, 0x3F80_0000),
        Quantity::Coordinate => between(0xC120_0000, 0x4120_0000),
    }
}

/// The bounds of a quantity.
pub fn range_of(quantity: Quantity) -> (range: ScalarRange)
    ensures
        range == bounds(quantity),
{
    let (low, high): (u32, u32) = match quantity {
        Quantity::Density => (0x3CA3_D70A, 0x3DA3_D70A),
        Quantity::Scattering => (0x3DCC_CCCD, 0x3F80_0000),
        Quantity::MeanFreePath => (0x3F00_0000, 0x4000_0000),
        Quantity::Frequency => (0x3F00_0000, 0x40A0_0000),
        Quantity::Amplitude => (0x3C23_D70A, 0x3DCC_CCCD),
        Quantity::Damping => (0x3DCC_CCCD, 0x3F00_0000),
        Quantity::Coupling => (0x3DCC_CCCD, 0x3F80_0000),
        Quantity::Coordinate => (0xC120_0000, 0x4120_0000),
    };
    ScalarRange { low: Scalar::from_bits(low), high: Scalar::from_bits(high) }
}

/// Encoding of the least colour channel: value times one less saturation,
/// 0.9 times 0.3, as single-precision arithmetic gives it.
pub const CHANNEL_LOW_BITS: u32 = 0x3E8A_3D71;

/// Encoding of the greatest colour channel: the value, 0.9.
pub const CHANNEL_HIGH_BITS: u32 = 0x3F66_6666;

/// `s` is a colour channel. At saturation 0.7 and value 0.9 every channel
/// of every hue lies between the two ends, both included.
pub open spec fn is_channel(s: Scalar) -> bool {
    CHANNEL_LOW_BITS <= s.ordinal() <= CHANNEL_HIGH_BITS
}

/// Whether `s` is a colour channel.
pub fn channel(s: Scalar) -> (inside: bool)
    ensures
        inside == is_channel(s),
{
    !s.below(&Scalar::from_bits(CHANNEL_LOW_BITS)) && !Scalar::from_bits(CHANNEL_HIGH_BITS).below(
        &s,
    )
}

/// Every scalar of a phase or a cell within bounds is finite.
pub proof fn lemma_in_bounds_is_finite(phase: VendekPhase, cell: HoneycombCell)
    ensures
        phase.in_bounds() ==> forall|k: int|
            0 <= k < 4 ==> (#[trigger] phase.color_density@[k]).is_finite()
                && phase.scattering@[k].is_finite() && phase.membrane_params@[k].is_finite(),
        cell.in_bounds() ==> forall|k: int| 0 <= k < 3 ==> (#[trigger] cell.position@[k]).is_finite(),
{
    if phase.in_bounds() {
        assert forall|k: int| 0 <= k < 4 implies (#[trigger] phase.color_density@[k]).is_finite()
            && phase.scattering@[k].is_finite() && phase.membrane_params@[k].is_finite() by {
            lemma_bounded_is_finite(phase.color_density@[k]);
            lemma_bounded_is_finite(phase.scattering@[k]);
            lemma_bounded_is_finite(phase.membrane_params@[k]);
        }
    }
    if cell.in_bounds() {
        assert forall|k: int| 0 <= k < 3 implies (#[trigger] cell.position@[k]).is_finite() by {
            lemma_bounded_is_finite(cell.position@[k]);
        }
    }
}

/// A channel is finite, and so is a scalar within the bounds of any
/// quantity.
pub proof fn lemma_bounded_is_finite(s: Scalar)
    ensures
        is_channel(s) ==> s.is_finite(),
        forall|quantity: Quantity| #[trigger] bounds(quantity).contains(s) ==> s.is_finite(),
{
    assert forall|quantity: Quantity| #[trigger] bounds(quantity).contains(s) implies s.is_finite() by {
        lemma_between_finite_is_finite(bounds(quantity).low, s, bounds(quantity).high);
    }
    if is_channel(s) {
        lemma_between_finite_is_finite(
            Scalar { bits: CHANNEL_LOW_BITS },
            s,
            Scalar { bits: CHANNEL_HIGH_BITS },
        );
    }
}

/// The quantities drawn for one phase, in the order of the draws.
pub open spec fn phase_draws() -> Seq<Quantity> {
    seq![
        Quantity::Density,
        Quantity::Scattering,
        Quantity::Scattering,
        Quantity::Scattering,
        Quantity::MeanFreePath,
        Quantity::Frequency,
        Quantity::Amplitude,
        Quantity::Damping,
        Quantity::Coupling,
    ]
}

/// The quantities drawn for one cell before its phase, in the order of the
/// draws: the coordinates x, y and z.
pub open spec fn cell_draws() -> Seq<Quantity> {
    seq![Quantity::Coordinate, Quantity::Coordinate, Quantity::Coordinate]
}

/// The quantities to draw for one phase, in the order to draw them.
pub fn phase_draw_order() -> (order: [Quantity; 9])
    ensures
        order@ == phase_draws(),
{
    let order = [
        Quantity::Density,
        Quantity::Scattering,
        Quantity::Scattering,
        Quantity::Scattering,
        Quantity::MeanFreePath,
        Quantity::Frequency,
        Quantity::Amplitude,
        Quantity::Damping,
        Quantity::Coupling,
    ];
    assert(order@ =~= phase_draws());
    order
}

/// The quantities to draw for one cell, in the order to draw them; the
/// cell's phase is drawn after them.
pub fn cell_draw_order() -> (order: [Quantity; 3])
    ensures
        order@ == cell_draws(),
{
    let order = [Quantity::Coordinate, Quantity::Coordinate, Quantity::Coordinate];
    assert(order@ =~= cell_draws());
    order
}

/// The three blocks of a phase whose colour is `colour` and whose other
/// scalars were drawn in the order of [`phase_draws`]: the density closes
/// the colour's block, the next four make the scattering block, the last
/// four the membrane block.
pub open spec fn phase_blocks(colour: [Scalar; 3], drawn: [Scalar; 9]) -> (
    [Scalar; 4],
    [Scalar; 4],
    [Scalar; 4],
) {
    (
        [colour@[0], colour@[1], colour@[2], drawn@[0]],
        [drawn@[1], drawn@[2], drawn@[3], drawn@[4]],
        [drawn@[5], drawn@[6], drawn@[7], drawn@[8]],
    )
}

/// A phase made of drawn scalars is within bounds exactly when its colour
/// is made of channels and each draw lies within the bounds of the quantity
/// it was drawn for.
pub proof fn lemma_drawn_phase_in_bounds(colour: [Scalar; 3], drawn: [Scalar; 9], phase_id: u32)
    ensures
        ({
            let (color_density, scattering, membrane_params) = phase_blocks(colour, drawn);
            (VendekPhase { color_density, scattering, membrane_params, phase_id }).in_bounds() <==> {
                &&& forall|k: int| 0 <= k < 3 ==> is_channel(#[trigger] colour@[k])
                &&& forall|k: int|
                    0 <= k < 9 ==> bounds(phase_draws()[k]).contains(#[trigger] drawn@[k])
            }
        }),
{
    let (color_density, scattering, membrane_params) = phase_blocks(colour, drawn);
    let phase = VendekPhase { color_density, scattering, membrane_params, phase_id };
    if phase.in_bounds() {
        assert forall|k: int| 0 <= k < 9 implies bounds(phase_draws()[k]).contains(
            #[trigger] drawn@[k],
        ) by {
            assert(drawn@[0] == color_density@[3]);
            assert(drawn@[1] == scattering@[0] && drawn@[2] == scattering@[1] && drawn@[3]
                == scattering@[2] && drawn@[4] == scattering@[3]);
            assert(drawn@[5] == membrane_params@[0] && drawn@[6] == membrane_params@[1] && drawn@[7]
                == membrane_params@[2] && drawn@[8] == membrane_params@[3]);
        }
    }
    if (forall|k: int| 0 <= k < 3 ==> is_channel(#[trigger] colour@[k])) && (forall|k: int|
        0 <= k < 9 ==> bounds(phase_draws()[k]).contains(#[trigger] drawn@[k])) {
        assert(is_channel(colour@[0]) && is_channel(colour@[1]) && is_channel(colour@[2]));
        assert(bounds(phase_draws()[0]).contains(drawn@[0]));
        assert(bounds(phase_draws()[1]).contains(drawn@[1]));
        assert(bounds(phase_draws()[2]).contains(drawn@[2]));
        assert(bounds(phase_draws()[3]).contains(drawn@[3]));
        assert(bounds(phase_draws()[4]).contains(drawn@[4]));
        assert(bounds(phase_draws()[5]).contains(drawn@[5]));
        assert(bounds(phase_draws()[6]).contains(drawn@[6]));
        assert(bounds(phase_draws()[7]).contains(drawn@[7]));
        assert(bounds(phase_draws()[8]).contains(drawn@[8]));
    }
}

/// What the generator waits for.
#[derive(Clone, Copy, Debug, PartialEq, Eq, Structural)]
pub enum GenStep {
    /// The scalars of the phase with this index.
    Phase(u32),
    /// The position of the cell with this index.
    Cell(usize),
    /// Nothing: the world is complete.
    Done,
}

impl VendekPhase {
    /// The colour is made of channels and every drawn scalar lies within the
    /// bounds of its quantity.
    pub open spec fn in_bounds(self) -> bool {
        &&& is_channel(self.color_density@[0])
        &&& is_channel(self.color_density@[1])
        &&& is_channel(self.color_density@[2])
        &&& bounds(Quantity::Density).contains(self.color_density@[3])
        &&& bounds(Quantity::Scattering).contains(self.scattering@[0])
        &&& bounds(Quantity::Scattering).contains(self.scattering@[1])
        &&& bounds(Quantity::Scattering).contains(self.scattering@[2])
        &&& bounds(Quantity::MeanFreePath).contains(self.scattering@[3])
        &&& bounds(Quantity::Frequency).contains(self.membrane_params@[0])
        &&& bounds(Quantity::Amplitude).contains(self.membrane_params@[1])
        &&& bounds(Quantity::Damping).contains(self.membrane_params@[2])
        &&& bounds(Quantity::Coupling).contains(self.membrane_params@[3])
    }

    /// Whether the phase is within bounds.
    pub fn is_in_bounds(&self) -> (inside: bool)
        ensures
            inside == self.in_bounds(),
    {
        let colour = channel(self.color_density[0]) && channel(self.color_density[1]) && channel(
            self.color_density[2],
        );
        let density = range_of(Quantity::Density).holds(self.color_density[3]);
        let scatter = range_of(Quantity::Scattering);
        let scattering = scatter.holds(self.scattering[0]) && scatter.holds(self.scattering[1])
            && scatter.holds(self.scattering[2]);
        let path = range_of(Quantity::MeanFreePath).holds(self.scattering[3]);
        let frequency = range_of(Quantity::Frequency).holds(self.membrane_params[0]);
        let amplitude = range_of(Quantity::Amplitude).holds(self.membrane_params[1]);
        let damping = range_of(Quantity::Damping).holds(self.membrane_params[2]);
        let coupling = range_of(Quantity::Coupling).holds(self.membrane_params[3]);
        colour && density && scattering && path && frequency && amplitude && damping && coupling
    }

    /// The storage record: the three blocks of scalars, the identity, and
    /// three padding words.
    pub open spec fn layout(self) -> Seq<u32> {
        bits_of(self.color_density@) + bits_of(self.scattering@) + bits_of(self.membrane_params@)
            + seq![self.phase_id, 0u32, 0u32, 0u32]
    }

    /// Appends the storage record to `out`.
    pub fn write_words(&self, out: &mut Vec<u32>)
        ensures
            final(out)@ == old(out)@ + self.layout(),
            self.layout().len() == PHASE_RECORD_WORDS,
    {
        let ghost before = out@;
        push_scalars(out, &self.color_density);
        push_scalars(out, &self.scattering);
        push_scalars(out, &self.membrane_params);
        out.push(self.phase_id);
        out.push(0);
        out.push(0);
        out.push(0);
        assert(out@ =~= before + self.layout());
    }
}

impl HoneycombCell {
    /// Every coordinate lies within the bounds of a coordinate.
    pub open spec fn in_bounds(self) -> bool {
        &&& bounds(Quantity::Coordinate).contains(self.position@[0])
        &&& bounds(Quantity::Coordinate).contains(self.position@[1])
        &&& bounds(Quantity::Coordinate).contains(self.position@[2])
    }

    /// Whether the cell is within bounds.
    pub fn is_in_bounds(&self) -> (inside: bool)
        ensures
            inside == self.in_bounds(),
    {
        let range = range_of(Quantity::Coordinate);
        range.holds(self.position[0]) && range.holds(self.position[1]) && range.holds(
            self.position[2],
        )
    }

    /// The storage record: the position, then the phase index.
    pub open spec fn layout(self) -> Seq<u32> {
        bits_of(self.position@) + seq![self.phase_index]
    }

    /// Appends the storage record to `out`.
    pub fn write_words(&self, out: &mut Vec<u32>)
        ensures
            final(out)@ == old(out)@ + self.layout(),
            self.layout().len() == CELL_RECORD_WORDS,
    {
        let ghost before = out@;
        push_scalars(out, &self.position);
        out.push(self.phase_index);
        assert(out@ =~= before + self.layout());
    }
}

/// The storage records of the first `n` phases, one after the other.
pub open spec fn phase_records(phases: Seq<VendekPhase>, n: nat) -> Seq<u32>
    decreases n,
{
    if n == 0 {
        Seq::empty()
    } else {
        phase_records(phases, (n - 1) as nat) + phases[n - 1].layout()
    }
}

/// The storage records of the first `n` cells, one after the other.
pub open spec fn cell_records(cells: Seq<HoneycombCell>, n: nat) -> Seq<u32>
    decreases n,
{
    if n == 0 {
        Seq::empty()
    } else {
        cell_records(cells, (n - 1) as nat) + cells[n - 1].layout()
    }
}

/// Phase records have a fixed size, so record `i` starts at word `16 * i`
/// and word `k` of it is word `16 * i + k` of the whole.
pub proof fn lemma_phase_records(phases: Seq<VendekPhase>, n: nat)
    requires
        n <= phases.len(),
    ensures
        phase_records(phases, n).len() == PHASE_RECORD_WORDS * n,
        forall|i: int, k: int|
            0 <= i < n && 0 <= k < PHASE_RECORD_WORDS ==> phase_records(phases, n)[16 * i + k]
                == #[trigger] phases[i].layout()[k],
    decreases n,
{
    if n > 0 {
        lemma_phase_records(phases, (n - 1) as nat);
    }
}

/// Cell records have a fixed size, so record `i` starts at word `4 * i` and
/// word `k` of it is word `4 * i + k` of the whole.
pub proof fn lemma_cell_records(cells: Seq<HoneycombCell>, n: nat)
    requires
        n <= cells.len(),
    ensures
        cell_records(cells, n).len() == CELL_RECORD_WORDS * n,
        forall|i: int, k: int|
            0 <= i < n && 0 <= k < CELL_RECORD_WORDS ==> cell_records(cells, n)[4 * i + k]
                == #[trigger] cells[i].layout()[k],
    decreases n,
{
    if n > 0 {
        lemma_cell_records(cells, (n - 1) as nat);
    }
}

impl HoneycombWorld {
    /// Every phase is identified by its position, and every cell refers to a
    /// phase that exists.
    pub open spec fn wf(self) -> bool {
        &&& forall|i: int| 0 <= i < self.phases@.len() ==> (#[trigger] self.phases@[i]).phase_id == i
        &&& forall|j: int|
            0 <= j < self.cells@.len() ==> (#[trigger] self.cells@[j]).phase_index
                < self.phases@.len()
    }

    /// Every phase and every cell is within bounds.
    pub open spec fn in_bounds(self) -> bool {
        &&& forall|i: int| 0 <= i < self.phases@.len() ==> (#[trigger] self.phases@[i]).in_bounds()
        &&& forall|j: int| 0 <= j < self.cells@.len() ==> (#[trigger] self.cells@[j]).in_bounds()
    }

    /// Content of the phase storage buffer.
    pub open spec fn phase_layout(self) -> Seq<u32> {
        phase_records(self.phases@, self.phases@.len())
    }

    /// Content of the cell storage buffer.
    pub open spec fn cell_layout(self) -> Seq<u32> {
        cell_records(self.cells@, self.cells@.len())
    }

    /// The words of the phase storage buffer: one record per phase, in order.
    pub fn phase_words(&self) -> (words: Vec<u32>)
        ensures
            words@ == self.phase_layout(),
            words@.len() == PHASE_RECORD_WORDS * self.phases@.len(),
    {
        let mut words: Vec<u32> = Vec::new();
        let mut i: usize = 0;
        while i < self.phases.len()
            invariant
                i <= self.phases@.len(),
                words@ == phase_records(self.phases@, i as nat),
            decreases self.phases@.len() - i,
        {
            self.phases[i].write_words(&mut words);
            i = i + 1;
        }
        proof {
            lemma_phase_records(self.phases@, self.phases@.len());
        }
        words
    }

    /// The words of the cell storage buffer: one record per cell, in order.
    pub fn cell_words(&self) -> (words: Vec<u32>)
        ensures
            words@ == self.cell_layout(),
            words@.len() == CELL_RECORD_WORDS * self.cells@.len(),
    {
        let mut words: Vec<u32> = Vec::new();
        let mut i: usize = 0;
        while i < self.cells.len()
            invariant
                i <= self.cells@.len(),
                words@ == cell_records(self.cells@, i as nat),
            decreases self.cells@.len() - i,
        {
            self.cells[i].write_words(&mut words);
            i = i + 1;
        }
        proof {
            lemma_cell_records(self.cells@, self.cells@.len());
        }
        words
    }

    /// The phase storage buffer as bytes in this machine's order.
    pub fn phase_bytes(&self) -> (bytes: Vec<u8>)
        ensures
            is_memory_image(bytes@, self.phase_layout()),
            bytes@.len() == PHASE_RECORD_BYTES * self.phases@.len(),
    {
        let words = self.phase_words();
        memory_image(words.as_slice())
    }

    /// The cell storage buffer as bytes in this machine's order.
    pub fn cell_bytes(&self) -> (bytes: Vec<u8>)
        ensures
            is_memory_image(bytes@, self.cell_layout()),
            bytes@.len() == CELL_RECORD_BYTES * self.cells@.len(),
    {
        let words = self.cell_words();
        memory_image(words.as_slice())
    }

    /// Starts the generation of a world of `phase_count` phases and
    /// `cell_count` cells from the stream that `seed` selects.
    ///
    /// Both counts may be zero. Cells without any phase are refused, and so
    /// are more phases than a 32-bit index can name.
    pub fn generate(seed: u64, cell_count: usize, phase_count: usize) -> (started: Result<
        WorldGenerator,
        WorldError,
    >)
        ensures
            started is Err <==> (phase_count == 0 && cell_count > 0) || phase_count > u32::MAX,
            started is Err ==> started->Err_0 == if phase_count == 0 {
                WorldError::NoPhases
            } else {
                WorldError::TooManyPhases
            },
            started is Ok ==> {
                let g = started->Ok_0;
                &&& g.wf()
                &&& g.phase_target() == phase_count
                &&& g.cell_target() == cell_count
                &&& g.world().phases@.len() == 0
                &&& g.world().cells@.len() == 0
                &&& g.stream() == stream_of_seed(seed)
                &&& g.started_from(seed, cell_count, phase_count)
            },
    {
        if phase_count == 0 && cell_count > 0 {
            return Err(WorldError::NoPhases);
        }
        if phase_count > u32::MAX as usize {
            return Err(WorldError::TooManyPhases);
        }
        Ok(
            WorldGenerator {
                rng: seeded_stream(seed),
                phase_count: phase_count as u32,
                cell_count,
                world: HoneycombWorld { phases: Vec::new(), cells: Vec::new() },
            },
        )
    }
}

/// The stream that a seed selects: what `ChaCha8Rng::seed_from_u64` makes
/// of it.
pub uninterp spec fn stream_of_seed(seed: u64) -> ChaCha8Rng;

/// What a draw of an index below `bound` does with a stream: the index that
/// `Rng::gen_range` yields from it, and the stream it leaves.
pub uninterp spec fn index_drawn(rng: ChaCha8Rng, bound: u32) -> (u32, ChaCha8Rng);

/// The stream that `seed` selects.
///
/// Calls `ChaCha8Rng::seed_from_u64`, which expands the seed to a key by a
/// fixed recipe and never fails. The stream depends on the seed alone and
/// is given the name [`stream_of_seed`]; nothing else is claimed of it.
#[verifier::external_body]
fn seeded_stream(seed: u64) -> (rng: ChaCha8Rng)
    ensures
        rng == stream_of_seed(seed),
{
    ChaCha8Rng::seed_from_u64(seed)
}

/// The next index below `bound` from the stream.
///
/// Calls `Rng::gen_range` on the half-open range from zero to `bound`.
/// Believed of it, not proved: the sample lies in the range; sample and
/// stream afterwards depend on the stream before and on the bound alone,
/// and are given the name [`index_drawn`]. An empty range makes the call
/// panic, so `bound` is positive.
#[verifier::external_body]
fn draw_below(rng: &mut ChaCha8Rng, bound: u32) -> (index: u32)
    requires
        bound > 0,
    ensures
        index < bound,
        index == index_drawn(*old(rng), bound).0,
        *final(rng) == index_drawn(*old(rng), bound).1,
{
    rng.gen_range(0..bound)
}

/// A world in the making.
pub struct WorldGenerator {
    /// The stream. Draw from it what [`WorldGenerator::next_step`] asks for,
    /// when it asks for it, and nothing else.
    pub rng: ChaCha8Rng,
    phase_count: u32,
    cell_count: usize,
    world: HoneycombWorld,
}

impl WorldGenerator {
    /// Number of phases the finished world will have.
    pub closed spec fn phase_target(self) -> nat {
        self.phase_count as nat
    }

    /// Number of cells the finished world will have.
    pub closed spec fn cell_target(self) -> nat {
        self.cell_count as nat
    }

    /// The part of the world made so far.
    pub closed spec fn world(self) -> HoneycombWorld {
        self.world
    }

    /// The stream, as far as it has been drawn from.
    pub closed spec fn stream(self) -> ChaCha8Rng {
        self.rng
    }

    /// Phases come before cells, neither exceeds its target, and what has
    /// been made is a well-formed world.
    pub open spec fn wf(self) -> bool {
        &&& self.world().wf()
        &&& self.world().in_bounds()
        &&& self.world().phases@.len() <= self.phase_target() <= u32::MAX
        &&& self.world().cells@.len() <= self.cell_target()
        &&& self.world().cells@.len() > 0 ==> self.world().phases@.len() == self.phase_target()
        &&& self.cell_target() > 0 ==> self.phase_target() > 0
    }

    /// The step that is due: the first missing phase, else the first missing
    /// cell, else none.
    pub open spec fn due(self) -> GenStep {
        if self.world().phases@.len() < self.phase_target() {
            GenStep::Phase(self.world().phases@.len() as u32)
        } else if self.world().cells@.len() < self.cell_target() {
            GenStep::Cell(self.world().cells@.len() as usize)
        } else {
            GenStep::Done
        }
    }

    /// The phase that the given scalars would make now.
    pub open spec fn next_phase(
        self,
        color_density: [Scalar; 4],
        scattering: [Scalar; 4],
        membrane_params: [Scalar; 4],
    ) -> VendekPhase {
        VendekPhase {
            color_density,
            scattering,
            membrane_params,
            phase_id: self.world().phases@.len() as u32,
        }
    }

    /// Whether a phase of the given scalars is taken now, and if not, why.
    pub open spec fn phase_verdict(
        self,
        color_density: [Scalar; 4],
        scattering: [Scalar; 4],
        membrane_params: [Scalar; 4],
    ) -> Result<(), WorldError> {
        if !(self.due() is Phase) {
            Err(WorldError::OutOfTurn)
        } else if !self.next_phase(color_density, scattering, membrane_params).in_bounds() {
            Err(WorldError::OutOfBounds)
        } else {
            Ok(())
        }
    }

    /// Whether a cell at `position` with the given phase is taken now, and
    /// if not, why.
    pub open spec fn cell_verdict(self, position: [Scalar; 3], phase_index: u32) -> Result<
        (),
        WorldError,
    > {
        if !(self.due() is Cell) {
            Err(WorldError::OutOfTurn)
        } else if !(HoneycombCell { position, phase_index }).in_bounds() {
            Err(WorldError::OutOfBounds)
        } else if phase_index >= self.phase_target() {
            Err(WorldError::UnknownPhase)
        } else {
            Ok(())
        }
    }

    /// Two generators agree: they aim at the same counts, have made the
    /// same phases and cells, and have streams that are equally far.
    pub open spec fn agrees(self, other: WorldGenerator) -> bool {
        &&& self.phase_target() == other.phase_target()
        &&& self.cell_target() == other.cell_target()
        &&& self.world().phases@ == other.world().phases@
        &&& self.world().cells@ == other.world().cells@
        &&& self.stream() == other.stream()
    }

    /// The generator is as [`HoneycombWorld::generate`] leaves it for these
    /// arguments: nothing made yet, and the stream the one of the seed.
    pub open spec fn started_from(self, seed: u64, cell_count: usize, phase_count: usize) -> bool {
        &&& self.phase_target() == phase_count
        &&& self.cell_target() == cell_count
        &&& self.world().phases@.len() == 0
        &&& self.world().cells@.len() == 0
        &&& self.stream() == stream_of_seed(seed)
    }

    /// The generator is as [`WorldGenerator::add_phase`] leaves `before`
    /// when it is handed these scalars: the phase added if it is taken,
    /// nothing else changed.
    pub open spec fn phase_follows(
        self,
        before: WorldGenerator,
        color_density: [Scalar; 4],
        scattering: [Scalar; 4],
        membrane_params: [Scalar; 4],
    ) -> bool {
        &&& self.phase_target() == before.phase_target()
        &&& self.cell_target() == before.cell_target()
        &&& self.world().cells@ == before.world().cells@
        &&& self.stream() == before.stream()
        &&& self.world().phases@ == if before.phase_verdict(
            color_density,
            scattering,
            membrane_params,
        ) is Ok {
            before.world().phases@.push(
                before.next_phase(color_density, scattering, membrane_params),
            )
        } else {
            before.world().phases@
        }
    }

    /// The generator is as [`WorldGenerator::add_cell`] leaves `before` when
    /// it is handed this position: if the cell is taken, its phase drawn
    /// from the stream below the number of phases, the cell added and the
    /// stream moved on by that draw; if not, nothing changed.
    pub open spec fn cell_follows(self, before: WorldGenerator, position: [Scalar; 3]) -> bool {
        let (phase_index, stream) = index_drawn(before.stream(), before.phase_target() as u32);
        let taken = before.cell_verdict(position, 0) is Ok;
        &&& self.phase_target() == before.phase_target()
        &&& self.cell_target() == before.cell_target()
        &&& self.world().phases@ == before.world().phases@
        &&& self.stream() == if taken {
            stream
        } else {
            before.stream()
        }
        &&& self.world().cells@ == if taken {
            before.world().cells@.push(HoneycombCell { position, phase_index })
        } else {
            before.world().cells@
        }
    }

    /// Number of phases the finished world will have.
    pub fn phase_count(&self) -> (count: u32)
        ensures
            count == self.phase_target(),
    {
        self.phase_count
    }

    /// Number of cells the finished world will have.
    pub fn cell_count(&self) -> (count: usize)
        ensures
            count == self.cell_target(),
    {
        self.cell_count
    }

    /// What the generator waits for.
    pub fn next_step(&self) -> (step: GenStep)
        requires
            self.wf(),
        ensures
            step == self.due(),
    {
        if self.world.phases.len() < self.phase_count as usize {
            GenStep::Phase(self.world.phases.len() as u32)
        } else if self.world.cells.len() < self.cell_count {
            GenStep::Cell(self.world.cells.len())
        } else {
            GenStep::Done
        }
    }

    /// Adds the next phase, made of the given scalars and identified by its
    /// position. Refused, and nothing changed, unless a phase is due and the
    /// scalars are within bounds.
    pub fn add_phase(
        &mut self,
        color_density: [Scalar; 4],
        scattering: [Scalar; 4],
        membrane_params: [Scalar; 4],
    ) -> (added: Result<(), WorldError>)
        requires
            old(self).wf(),
        ensures
            final(self).wf(),
            final(self).phase_target() == old(self).phase_target(),
            final(self).cell_target() == old(self).cell_target(),
            final(self).world().cells@ == old(self).world().cells@,
            final(self).stream() == old(self).stream(),
            added == old(self).phase_verdict(color_density, scattering, membrane_params),
            final(self).phase_follows(*old(self), color_density, scattering, membrane_params),
            added is Err ==> final(self).world().phases@ == old(self).world().phases@,
            added is Ok ==> final(self).world().phases@ == old(self).world().phases@.push(
                old(self).next_phase(color_density, scattering, membrane_params),
            ),
    {
        if self.world.phases.len() >= self.phase_count as usize {
            return Err(WorldError::OutOfTurn);
        }
        let phase_id: u32 = self.world.phases.len() as u32;
        let phase = VendekPhase { color_density, scattering, membrane_params, phase_id };
        if !phase.is_in_bounds() {
            return Err(WorldError::OutOfBounds);
        }
        self.world.phases.push(phase);
        Ok(())
    }

    /// Adds the next phase, made of a colour and of the nine scalars drawn
    /// in the order of [`phase_draw_order`]. Refused, and nothing changed,
    /// unless a phase is due and colour and draws are within bounds.
    pub fn add_drawn_phase(&mut self, colour: [Scalar; 3], drawn: [Scalar; 9]) -> (added: Result<
        (),
        WorldError,
    >)
        requires
            old(self).wf(),
        ensures
            final(self).wf(),
            final(self).phase_target() == old(self).phase_target(),
            final(self).cell_target() == old(self).cell_target(),
            final(self).world().cells@ == old(self).world().cells@,
            final(self).stream() == old(self).stream(),
            ({
                let (color_density, scattering, membrane_params) = phase_blocks(colour, drawn);
                &&& added == old(self).phase_verdict(color_density, scattering, membrane_params)
                &&& final(self).phase_follows(
                    *old(self),
                    color_density,
                    scattering,
                    membrane_params,
                )
                &&& added is Ok ==> final(self).world().phases@ == old(self).world().phases@.push(
                    old(self).next_phase(color_density, scattering, membrane_params),
                )
            }),
            added is Err ==> final(self).world().phases@ == old(self).world().phases@,
    {
        let color_density = [colour[0], colour[1], colour[2], drawn[0]];
        let scattering = [drawn[1], drawn[2], drawn[3], drawn[4]];
        let membrane_params = [drawn[5], drawn[6], drawn[7], drawn[8]];
        proof {
            let (c, s, m) = phase_blocks(colour, drawn);
            assert(color_density@ =~= c@);
            assert(scattering@ =~= s@);
            assert(membrane_params@ =~= m@);
        }
        self.add_phase(color_density, scattering, membrane_params)
    }

    /// Adds the next cell at `position` with the given phase. Refused, and
    /// nothing changed, unless a cell is due, the position is within bounds
    /// and the phase exists.
    pub fn place_cell(&mut self, position: [Scalar; 3], phase_index: u32) -> (placed: Result<
        (),
        WorldError,
    >)
        requires
            old(self).wf(),
        ensures
            final(self).wf(),
            final(self).phase_target() == old(self).phase_target(),
            final(self).cell_target() == old(self).cell_target(),
            final(self).world().phases@ == old(self).world().phases@,
            final(self).stream() == old(self).stream(),
            placed == old(self).cell_verdict(position, phase_index),
            placed is Err ==> final(self).world().cells@ == old(self).world().cells@,
            placed is Ok ==> final(self).world().cells@ == old(self).world().cells@.push(
                HoneycombCell { position, phase_index },
            ),
    {
        if self.world.phases.len() < self.phase_count as usize || self.world.cells.len()
            >= self.cell_count {
            return Err(WorldError::OutOfTurn);
        }
        let cell = HoneycombCell { position, phase_index };
        if !cell.is_in_bounds() {
            return Err(WorldError::OutOfBounds);
        }
        if phase_index >= self.phase_count {
            return Err(WorldError::UnknownPhase);
        }
        self.world.cells.push(cell);
        Ok(())
    }

    /// Adds the next cell at `position` and draws its phase from the stream.
    /// Refused, with world and stream untouched, unless a cell is due and
    /// the position is within bounds.
    pub fn add_cell(&mut self, position: [Scalar; 3]) -> (added: Result<(), WorldError>)
        requires
            old(self).wf(),
        ensures
            final(self).wf(),
            final(self).phase_target() == old(self).phase_target(),
            final(self).cell_target() == old(self).cell_target(),
            final(self).world().phases@ == old(self).world().phases@,
            added is Ok <==> old(self).due() is Cell && (HoneycombCell {
                position,
                phase_index: 0,
            }).in_bounds(),
            added is Err ==> added->Err_0 == if old(self).due() is Cell {
                WorldError::OutOfBounds
            } else {
                WorldError::OutOfTurn
            },
            final(self).cell_follows(*old(self), position),
            added is Err ==> final(self).world().cells@ == old(self).world().cells@,
            added is Err ==> final(self).stream() == old(self).stream(),
            added is Ok ==> {
                let (phase_index, stream) = index_drawn(
                    old(self).stream(),
                    old(self).phase_target() as u32,
                );
                &&& phase_index < old(self).phase_target()
                &&& final(self).stream() == stream
                &&& final(self).world().cells@ == old(self).world().cells@.push(
                    HoneycombCell { position, phase_index },
                )
            },
    {
        if self.world.phases.len() < self.phase_count as usize || self.world.cells.len()
            >= self.cell_count {
            return Err(WorldError::OutOfTurn);
        }
        let probe = HoneycombCell { position, phase_index: 0 };
        if !probe.is_in_bounds() {
            return Err(WorldError::OutOfBounds);
        }
        let phase_index = draw_below(&mut self.rng, self.phase_count);
        self.place_cell(position, phase_index)
    }

    /// Hands out the world once it is complete.
    pub fn finish(self) -> (finished: Result<HoneycombWorld, WorldError>)
        requires
            self.wf(),
        ensures
            finished is Ok <==> self.due() is Done,
            finished is Err ==> finished == Err::<HoneycombWorld, WorldError>(
                WorldError::OutOfTurn,
            ),
            finished is Ok ==> {
                let world = finished->Ok_0;
                &&& world == self.world()
                &&& world.wf()
                &&& world.in_bounds()
                &&& world.phases@.len() == self.phase_target()
                &&& world.cells@.len() == self.cell_target()
            },
    {
        if self.world.phases.len() < self.phase_count as usize || self.world.cells.len()
            < self.cell_count {
            return Err(WorldError::OutOfTurn);
        }
        Ok(self.world)
    }
}

/// Generation is determined by what it is given. Two generators started
/// with the same seed and counts agree, and two that agree still agree
/// after each has been handed the same phase, or the same position of a
/// cell: the cell's phase is drawn from streams that are equally far, below
/// the same bound.
pub proof fn lemma_generation_is_determined(
    first: WorldGenerator,
    second: WorldGenerator,
    first_after: WorldGenerator,
    second_after: WorldGenerator,
    seed: u64,
    cell_count: usize,
    phase_count: usize,
    color_density: [Scalar; 4],
    scattering: [Scalar; 4],
    membrane_params: [Scalar; 4],
    position: [Scalar; 3],
)
    ensures
        first.started_from(seed, cell_count, phase_count) && second.started_from(
            seed,
            cell_count,
            phase_count,
        ) ==> first.agrees(second),
        first.agrees(second) && first_after.phase_follows(
            first,
            color_density,
            scattering,
            membrane_params,
        ) && second_after.phase_follows(second, color_density, scattering, membrane_params)
            ==> first_after.agrees(second_after),
        first.agrees(second) && first_after.cell_follows(first, position)
            && second_after.cell_follows(second, position) ==> first_after.agrees(second_after),
        first.agrees(second) ==> first.due() == second.due(),
{
    if first.started_from(seed, cell_count, phase_count) && second.started_from(
        seed,
        cell_count,
        phase_count,
    ) {
        assert(first.world().phases@ =~= second.world().phases@);
        assert(first.world().cells@ =~= second.world().cells@);
    }
}

} // verus!
