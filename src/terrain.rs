//! Terrain configuration and platform placement.
//!
//! Heights and hole samples are real numbers computed by the noise field
//! outside this crate; here live the checked parameters of a field and the
//! rule that turns a run of hole samples into platforms.

use vstd::prelude::*;
use crate::error::ConfigError;

verus! {

/// Parameters of one noise field: wave length in cells, amplitude, and the
/// number of octaves. All three are positive.
pub struct NoiseSettings {
    wave_length: usize,
    amplitude: u32,
    octaves: usize,
}

impl View for NoiseSettings {
    type V = (usize, u32, usize);

    closed spec fn view(&self) -> (usize, u32, usize) {
        (self.wave_length, self.amplitude, self.octaves)
    }
}

impl NoiseSettings {
    #[verifier::type_invariant]
    spec fn positive(&self) -> bool {
        self.wave_length > 0 && self.amplitude > 0 && self.octaves > 0
    }

    /// Checks and bundles the parameters of a noise field; the first one that
    /// is zero, in argument order, is reported.
    pub fn new(wave_length: usize, amplitude: u32, octaves: usize) -> (r: Result<
        NoiseSettings,
        ConfigError,
    >)
        ensures
            wave_length == 0 ==> r == Err::<NoiseSettings, ConfigError>(
                ConfigError::ZeroWaveLength,
            ),
            wave_length > 0 && amplitude == 0 ==> r == Err::<NoiseSettings, ConfigError>(
                ConfigError::ZeroAmplitude,
            ),
            wave_length > 0 && amplitude > 0 && octaves == 0 ==> r == Err::<
                NoiseSettings,
                ConfigError,
            >(ConfigError::ZeroOctaves),
            r is Ok <==> wave_length > 0 && amplitude > 0 && octaves > 0,
            r matches Ok(s) ==> s@ == (wave_length, amplitude, octaves),
    {
        if wave_length == 0 {
            Err(ConfigError::ZeroWaveLength)
        } else if amplitude == 0 {
            Err(ConfigError::ZeroAmplitude)
        } else if octaves == 0 {
            Err(ConfigError::ZeroOctaves)
        } else {
            Ok(NoiseSettings { wave_length, amplitude, octaves })
        }
    }

    /// Wave length of the first octave, in cells.
    pub fn wave_length(&self) -> (r: usize)
        ensures
            r == self@.0,
            r > 0,
    {
        proof {
            use_type_invariant(self);
        }
        self.wave_length
    }

    /// Amplitude of the first octave.
    pub fn amplitude(&self) -> (r: u32)
        ensures
            r == self@.1,
            r > 0,
    {
        proof {
            use_type_invariant(self);
        }
        self.amplitude
    }

    /// Number of octaves.
    pub fn octaves(&self) -> (r: usize)
        ensures
            r == self@.2,
            r > 0,
    {
        proof {
            use_type_invariant(self);
        }
        self.octaves
    }
}

/// Cells in one generated chunk of terrain.
pub const CHUNK_CELLS: usize = 1024;

/// More terrain is generated once the player is this many world units from
/// its right edge. A cell is two world units wide.
pub const GENERATE_MARGIN: i64 = 100;

/// Whether the level must grow: the player, at world position `player_x`
/// (rounded down to a whole unit), has come within `GENERATE_MARGIN` units of
/// the edge of the `right` cells generated so far. Rounding down loses
/// nothing, as the edge lies on a whole unit.
pub fn needs_more_terrain(player_x: i64, right: usize) -> (r: bool)
    ensures
        r == (player_x + GENERATE_MARGIN >= 2 * right),
{
    player_x as i128 + GENERATE_MARGIN as i128 >= 2 * (right as i128)
}

/// Longest run of cells without a platform: once this many holes in a row
/// are open, the next cell gets a platform whatever the field says.
pub const MAX_HOLE_RUN: u32 = 4;

/// Length of the run of open holes just before cell `k`: it grows by one at
/// each hole left open and restarts at every platform, placed or forced. The
/// first `safe` cells are platforms.
pub open spec fn streak_before(holes: Seq<bool>, safe: nat, k: nat) -> nat
    decreases k,
{
    if k <= safe {
        0
    } else {
        let prev = streak_before(holes, safe, (k - 1) as nat);
        if prev >= MAX_HOLE_RUN || !holes[k - 1] {
            0
        } else {
            prev + 1
        }
    }
}

/// Whether cell `k` gets a platform: it is in the safe prefix, the run of
/// open holes before it is already `MAX_HOLE_RUN` long, or the field put no
/// hole there.
pub open spec fn has_platform(holes: Seq<bool>, safe: nat, k: nat) -> bool {
    k < safe || streak_before(holes, safe, k) >= MAX_HOLE_RUN || !holes[k as int]
}

proof fn lemma_streak_bounded(holes: Seq<bool>, safe: nat, k: nat)
    ensures
        streak_before(holes, safe, k) <= MAX_HOLE_RUN,
    decreases k,
{
    if k > safe {
        lemma_streak_bounded(holes, safe, (k - 1) as nat);
    }
}

/// Of any `MAX_HOLE_RUN + 1` cells in a row, one has a platform.
proof fn lemma_gap_bounded(holes: Seq<bool>, safe: nat, k: nat)
    requires
        k + 4 < holes.len(),
    ensures
        has_platform(holes, safe, k) || has_platform(holes, safe, k + 1) || has_platform(
            holes,
            safe,
            k + 2,
        ) || has_platform(holes, safe, k + 3) || has_platform(holes, safe, k + 4),
{
    if !has_platform(holes, safe, k) && !has_platform(holes, safe, k + 1) && !has_platform(
        holes,
        safe,
        k + 2,
    ) && !has_platform(holes, safe, k + 3) {
        assert(streak_before(holes, safe, k + 1) == streak_before(holes, safe, k) + 1);
        assert(streak_before(holes, safe, k + 2) == streak_before(holes, safe, k) + 2);
        assert(streak_before(holes, safe, k + 3) == streak_before(holes, safe, k) + 3);
        assert(streak_before(holes, safe, k + 4) == streak_before(holes, safe, k) + 4);
    }
}

/// Decides, for a run of cells whose hole samples are `holes`, which cells
/// get a platform: the first `safe_prefix` always do, and after that a hole
/// is left open unless `MAX_HOLE_RUN` holes in a row already are, in which
/// case a platform is forced. So no more than `MAX_HOLE_RUN` cells in a row
/// go without a platform.
pub fn place_platforms(holes: &Vec<bool>, safe_prefix: usize) -> (r: Vec<bool>)
    ensures
        r@.len() == holes@.len(),
        forall|k: int|
            0 <= k < r@.len() ==> r@[k] == has_platform(holes@, safe_prefix as nat, k as nat),
        forall|k: int|
            0 <= k && k + 4 < r@.len() ==> #[trigger] r@[k] || r@[k + 1] || r@[k + 2] || r@[k + 3]
                || r@[k + 4],
{
    let ghost safe = safe_prefix as nat;
    let mut r: Vec<bool> = Vec::new();
    let mut streak: u32 = 0;
    let mut k: usize = 0;
    while k < holes.len()
        invariant
            safe == safe_prefix as nat,
            k <= holes@.len(),
            r@.len() == k,
            forall|j: int| 0 <= j < k ==> r@[j] == has_platform(holes@, safe, j as nat),
            streak == streak_before(holes@, safe, k as nat),
        decreases holes@.len() - k,
    {
        proof {
            lemma_streak_bounded(holes@, safe, k as nat);
        }
        if k < safe_prefix {
            r.push(true);
        } else if streak >= MAX_HOLE_RUN {
            streak = 0;
            r.push(true);
        } else if holes[k] {
            streak = streak + 1;
            r.push(false);
        } else {
            streak = 0;
            r.push(true);
        }
        proof {
            let n = (k + 1) as nat;
            assert((n - 1) as nat == k as nat);
            assert(streak == streak_before(holes@, safe, n));
            assert(r@[k as int] == has_platform(holes@, safe, k as nat));
        }
        k += 1;
    }
    proof {
        assert forall|k: int|
            0 <= k && k + 4 < r@.len() implies #[trigger] r@[k] || r@[k + 1] || r@[k + 2] || r@[k + 3]
            || r@[k + 4] by {
            lemma_gap_bounded(holes@, safe, k as nat);
        }
    }
    r
}

} // verus!
