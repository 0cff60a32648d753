//! Small deterministic RNG (SplitMix64) so simulations and tests are reproducible.
use vstd::prelude::*;

verus! {

/// The SplitMix64 increment (the golden-ratio "gamma").
pub const GOLDEN_GAMMA: u64 = 0x9E37_79B9_7F4A_7C15;
/// First multiplier of the SplitMix64 finalizer.
pub const MIX_MUL_1: u64 = 0xBF58_476D_1CE4_E5B9;
/// Second multiplier of the SplitMix64 finalizer.
pub const MIX_MUL_2: u64 = 0x94D0_49BB_1331_11EB;
/// Multiplier applied to a fork's salt.
pub const FORK_SALT_MUL: u64 = 0xD6E8_FEB8_6659_FD93;
/// Seed of the global simulation stream.
pub const SIM_SEED: u64 = 0xC0FF_EE00_5EED;

/// `x * y` modulo 2^64.
pub open spec fn wmul(x: u64, y: u64) -> u64 {
    vstd::wrapping::u64_specs::wrapping_mul(x, y)
}

/// `x + y` modulo 2^64.
pub open spec fn wadd(x: u64, y: u64) -> u64 {
    vstd::wrapping::u64_specs::wrapping_add(x, y)
}

/// The state a generator seeded with `seed` starts in.
pub open spec fn seeded(seed: u64) -> u64 {
    seed ^ GOLDEN_GAMMA
}

/// The state after one draw.
pub open spec fn advance(state: u64) -> u64 {
    wadd(state, GOLDEN_GAMMA)
}

/// The SplitMix64 finalizer applied to an advanced state.
pub open spec fn mix(z: u64) -> u64 {
    let a = wmul(z ^ (z >> 30u64), MIX_MUL_1);
    let b = wmul(a ^ (a >> 27u64), MIX_MUL_2);
    b ^ (b >> 31u64)
}

/// The value drawn from `state`.
pub open spec fn output(state: u64) -> u64 {
    mix(advance(state))
}

/// The state after `n` draws from `state`.
pub open spec fn state_after(state: u64, n: nat) -> u64
    decreases n,
{
    if n == 0 {
        state
    } else {
        advance(state_after(state, (n - 1) as nat))
    }
}

/// The `n`-th value (counting from 0) drawn from a generator in `state`.
pub open spec fn nth_output(state: u64, n: nat) -> u64 {
    output(state_after(state, n))
}

/// A SplitMix64 generator; its view is the internal state.
#[derive(Debug, Clone, PartialEq, Eq)]
pub struct Rng(u64);

impl View for Rng {
    type V = u64;

    closed spec fn view(&self) -> u64 {
        self.0
    }
}

impl Rng {
    /// A generator seeded with `seed`.
    pub fn new(seed: u64) -> (r: Self)
        ensures
            r@ == seeded(seed),
    {
        Rng(seed ^ GOLDEN_GAMMA)
    }

    /// The next 64 random bits.
    pub fn next_u64(&mut self) -> (r: u64)
        ensures
            final(self)@ == advance(old(self)@),
            r == output(old(self)@),
    {
        self.0 = self.0.wrapping_add(GOLDEN_GAMMA);
        let mut z: u64 = self.0;
        z = (z ^ (z >> 30u64)).wrapping_mul(MIX_MUL_1);
        z = (z ^ (z >> 27u64)).wrapping_mul(MIX_MUL_2);
        z ^ (z >> 31u64)
    }

    /// The top 24 bits of the next draw: the mantissa of a uniform value in
    /// [0, 1) once divided by 2^24.
    pub fn next_u24(&mut self) -> (r: u32)
        ensures
            final(self)@ == advance(old(self)@),
            r as u64 == output(old(self)@) >> 40u64,
            r < 0x100_0000,
    {
        let x: u64 = self.next_u64();
        let top: u64 = x >> 40u64;
        assert(x >> 40u64 < 0x100_0000) by (bit_vector);
        top as u32
    }

    /// Derives an independent stream (e.g. one per system) from this one.
    pub fn fork(&mut self, salt: u64) -> (r: Rng)
        ensures
            final(self)@ == advance(old(self)@),
            r@ == seeded(output(old(self)@) ^ wmul(salt, FORK_SALT_MUL)),
    {
        let drawn: u64 = self.next_u64();
        Rng::new(drawn ^ salt.wrapping_mul(FORK_SALT_MUL))
    }
}

/// Global simulation RNG. Systems should `fork` a stream rather than share draws
/// across unrelated features, so adding randomness in one slice doesn't change another.
#[derive(Debug, Clone)]
pub struct SimRng(pub Rng);

impl Default for SimRng {
    fn default() -> (r: Self)
        ensures
            r.0@ == seeded(SIM_SEED),
    {
        SimRng(Rng::new(SIM_SEED))
    }
}

/// Reproducibility: two generators in the same state produce the same values
/// forever, and the `n`-th draw depends on nothing but the state and `n`.
pub proof fn lemma_stream_is_reproducible(a: u64, b: u64, n: nat)
    requires
        a == b,
    ensures
        nth_output(a, n) == nth_output(b, n),
        state_after(a, n + 1) == advance(state_after(a, n)),
{
}

/// `mix(z)` worked out one step at a time.
proof fn lemma_mix_at(z: u64, x1: u64, a: u64, x2: u64, b: u64, r: u64)
    requires
        x1 == z ^ (z >> 30u64),
        a == (x1 as nat * MIX_MUL_1 as nat) % 0x1_0000_0000_0000_0000,
        x2 == a ^ (a >> 27u64),
        b == (x2 as nat * MIX_MUL_2 as nat) % 0x1_0000_0000_0000_0000,
        r == b ^ (b >> 31u64),
    ensures
        mix(z) == r,
{
}

/// The stream is SplitMix64's: the first three draws from generators seeded
/// with 0, 1, 7 and the perf session's seed are the reference values of the
/// SplitMix64 generator (increment 0x9E3779B97F4A7C15, finalizer shifts 30,
/// 27 and 31) started from `seed ^ 0x9E3779B97F4A7C15`.
pub proof fn lemma_draws_match_splitmix64_reference()
    ensures
        nth_output(seeded(0x0), 0) == 0x6e789e6aa1b965f4u64,
        nth_output(seeded(0x0), 1) == 0x06c45d188009454fu64,
        nth_output(seeded(0x0), 2) == 0xf88bb8a8724c81ecu64,
        nth_output(seeded(0x1), 0) == 0xe99ff867dbf682c9u64,
        nth_output(seeded(0x1), 1) == 0x382ff84cb27281e9u64,
        nth_output(seeded(0x1), 2) == 0x6d1db36ccba982d2u64,
        nth_output(seeded(0x7), 0) == 0xec779c3693f88501u64,
        nth_output(seeded(0x7), 1) == 0xfed9eeb4936de39du64,
        nth_output(seeded(0x7), 2) == 0x6f9fb04b092bd30au64,
        nth_output(seeded(0x9e12f0), 0) == 0x860d3002515d98cfu64,
        nth_output(seeded(0x9e12f0), 1) == 0xf85e41fb75d8d644u64,
        nth_output(seeded(0x9e12f0), 2) == 0xeca937fc6b7cc8a5u64,
{
    reveal_with_fuel(state_after, 3);
    assert(seeded(0x0) == 0x9e3779b97f4a7c15u64) by (bit_vector);
    assert(advance(0x9e3779b97f4a7c15u64) == 0x3c6ef372fe94f82au64);
    assert(0x3c6ef3720f2f35e1u64 == 0x3c6ef372fe94f82au64 ^ (0x3c6ef372fe94f82au64 >> 30u64)) by (bit_vector);
    assert(0x2a94fcba9e2ba360u64 == 0x2a94fcbfccb43499u64 ^ (0x2a94fcbfccb43499u64 >> 27u64)) by (bit_vector);
    assert(0x6e789e6aa1b965f4u64 == 0x6e789e6a7d485920u64 ^ (0x6e789e6a7d485920u64 >> 31u64)) by (bit_vector);
    lemma_mix_at(0x3c6ef372fe94f82au64, 0x3c6ef3720f2f35e1u64, 0x2a94fcbfccb43499u64, 0x2a94fcba9e2ba360u64, 0x6e789e6a7d485920u64, 0x6e789e6aa1b965f4u64);
    assert(advance(0x3c6ef372fe94f82au64) == 0xdaa66d2c7ddf743fu64);
    assert(0xdaa66d2f1746c08eu64 == 0xdaa66d2c7ddf743fu64 ^ (0xdaa66d2c7ddf743fu64 >> 30u64)) by (bit_vector);
    assert(0xf1c3dd7d1aa380fau64 == 0xf1c3dd6322d82c9eu64 ^ (0xf1c3dd6322d82c9eu64 >> 27u64)) by (bit_vector);
    assert(0x06c45d188009454fu64 == 0x06c45d188d81ff7eu64 ^ (0x06c45d188d81ff7eu64 >> 31u64)) by (bit_vector);
    lemma_mix_at(0xdaa66d2c7ddf743fu64, 0xdaa66d2f1746c08eu64, 0xf1c3dd6322d82c9eu64, 0xf1c3dd7d1aa380fau64, 0x06c45d188d81ff7eu64, 0x06c45d188009454fu64);
    assert(advance(0xdaa66d2c7ddf743fu64) == 0x78dde6e5fd29f054u64);
    assert(0x78dde6e41e5e6bc3u64 == 0x78dde6e5fd29f054u64 ^ (0x78dde6e5fd29f054u64 >> 30u64)) by (bit_vector);
    assert(0x148240ee2605537du64 == 0x148240ecb64d4eebu64 ^ (0x148240ecb64d4eebu64 >> 27u64)) by (bit_vector);
    assert(0xf88bb8a8724c81ecu64 == 0xf88bb8a9835bf0bfu64 ^ (0xf88bb8a9835bf0bfu64 >> 31u64)) by (bit_vector);
    lemma_mix_at(0x78dde6e5fd29f054u64, 0x78dde6e41e5e6bc3u64, 0x148240ecb64d4eebu64, 0x148240ee2605537du64, 0xf88bb8a9835bf0bfu64, 0xf88bb8a8724c81ecu64);
    assert(seeded(0x1) == 0x9e3779b97f4a7c14u64) by (bit_vector);
    assert(advance(0x9e3779b97f4a7c14u64) == 0x3c6ef372fe94f829u64);
    assert(0x3c6ef3720f2f35e2u64 == 0x3c6ef372fe94f829u64 ^ (0x3c6ef372fe94f829u64 >> 30u64)) by (bit_vector);
    assert(0xe9ed4431d4319fcfu64 == 0xe9ed442ce9991a52u64 ^ (0xe9ed442ce9991a52u64 >> 27u64)) by (bit_vector);
    assert(0xe99ff867dbf682c9u64 == 0xe99ff86608c97205u64 ^ (0xe99ff86608c97205u64 >> 31u64)) by (bit_vector);
    lemma_mix_at(0x3c6ef372fe94f829u64, 0x3c6ef3720f2f35e2u64, 0xe9ed442ce9991a52u64, 0xe9ed4431d4319fcfu64, 0xe99ff86608c97205u64, 0xe99ff867dbf682c9u64);
    assert(advance(0x3c6ef372fe94f829u64) == 0xdaa66d2c7ddf743eu64);
    assert(0xdaa66d2f1746c08fu64 == 0xdaa66d2c7ddf743eu64 ^ (0xdaa66d2c7ddf743eu64 >> 30u64)) by (bit_vector);
    assert(0xb11c24c61c398850u64 == 0xb11c24d03fbd1257u64 ^ (0xb11c24d03fbd1257u64 >> 27u64)) by (bit_vector);
    assert(0x382ff84cb27281e9u64 == 0x382ff84cc22d7170u64 ^ (0x382ff84cc22d7170u64 >> 31u64)) by (bit_vector);
    lemma_mix_at(0xdaa66d2c7ddf743eu64, 0xdaa66d2f1746c08fu64, 0xb11c24d03fbd1257u64, 0xb11c24c61c398850u64, 0x382ff84cc22d7170u64, 0x382ff84cb27281e9u64);
    assert(advance(0xdaa66d2c7ddf743eu64) == 0x78dde6e5fd29f053u64);
    assert(0x78dde6e41e5e6bc4u64 == 0x78dde6e5fd29f053u64 ^ (0x78dde6e5fd29f053u64 >> 30u64)) by (bit_vector);
    assert(0xd3da8843a8633f9eu64 == 0xd3da8859d33234a4u64 ^ (0xd3da8859d33234a4u64 >> 27u64)) by (bit_vector);
    assert(0x6d1db36ccba982d2u64 == 0x6d1db36c1192e40au64 ^ (0x6d1db36c1192e40au64 >> 31u64)) by (bit_vector);
    lemma_mix_at(0x78dde6e5fd29f053u64, 0x78dde6e41e5e6bc4u64, 0xd3da8859d33234a4u64, 0xd3da8843a8633f9eu64, 0x6d1db36c1192e40au64, 0x6d1db36ccba982d2u64);
    assert(seeded(0x7) == 0x9e3779b97f4a7c12u64) by (bit_vector);
    assert(advance(0x9e3779b97f4a7c12u64) == 0x3c6ef372fe94f827u64);
    assert(0x3c6ef3720f2f35ecu64 == 0x3c6ef372fe94f827u64 ^ (0x3c6ef372fe94f827u64 >> 30u64)) by (bit_vector);
    assert(0x63600e7c668bdd8du64 == 0x63600e700a8a138cu64 ^ (0x63600e700a8a138cu64 >> 27u64)) by (bit_vector);
    assert(0xec779c3693f88501u64 == 0xec779c374b17bd6fu64 ^ (0xec779c374b17bd6fu64 >> 31u64)) by (bit_vector);
    lemma_mix_at(0x3c6ef372fe94f827u64, 0x3c6ef3720f2f35ecu64, 0x63600e700a8a138cu64, 0x63600e7c668bdd8du64, 0xec779c374b17bd6fu64, 0xec779c3693f88501u64);
    assert(advance(0x3c6ef372fe94f827u64) == 0xdaa66d2c7ddf743cu64);
    assert(0xdaa66d2f1746c08du64 == 0xdaa66d2c7ddf743cu64 ^ (0xdaa66d2c7ddf743cu64 >> 30u64)) by (bit_vector);
    assert(0x326b95f04881f825u64 == 0x326b95f605f346e5u64 ^ (0x326b95f605f346e5u64 >> 27u64)) by (bit_vector);
    assert(0xfed9eeb4936de39du64 == 0xfed9eeb56ede3ef7u64 ^ (0xfed9eeb56ede3ef7u64 >> 31u64)) by (bit_vector);
    lemma_mix_at(0xdaa66d2c7ddf743cu64, 0xdaa66d2f1746c08du64, 0x326b95f605f346e5u64, 0x326b95f04881f825u64, 0xfed9eeb56ede3ef7u64, 0xfed9eeb4936de39du64);
    assert(advance(0xdaa66d2c7ddf743cu64) == 0x78dde6e5fd29f051u64);
    assert(0x78dde6e41e5e6bc6u64 == 0x78dde6e5fd29f051u64 ^ (0x78dde6e5fd29f051u64 >> 30u64)) by (bit_vector);
    assert(0x528b173e5d9ee697u64 == 0x528b17340cfc0016u64 ^ (0x528b17340cfc0016u64 >> 27u64)) by (bit_vector);
    assert(0x6f9fb04b092bd30au64 == 0x6f9fb04bd614b39du64 ^ (0x6f9fb04bd614b39du64 >> 31u64)) by (bit_vector);
    lemma_mix_at(0x78dde6e5fd29f051u64, 0x78dde6e41e5e6bc6u64, 0x528b17340cfc0016u64, 0x528b173e5d9ee697u64, 0x6f9fb04bd614b39du64, 0x6f9fb04b092bd30au64);
    assert(seeded(0x9e12f0) == 0x9e3779b97fd46ee5u64) by (bit_vector);
    assert(advance(0x9e3779b97fd46ee5u64) == 0x3c6ef372ff1eeafau64);
    assert(0x3c6ef3720ea52731u64 == 0x3c6ef372ff1eeafau64 ^ (0x3c6ef372ff1eeafau64 >> 30u64)) by (bit_vector);
    assert(0x492a56cab046ff1bu64 == 0x492a56c3950c2769u64 ^ (0x492a56c3950c2769u64 >> 27u64)) by (bit_vector);
    assert(0x860d3002515d98cfu64 == 0x860d30035d47f8c9u64 ^ (0x860d30035d47f8c9u64 >> 31u64)) by (bit_vector);
    lemma_mix_at(0x3c6ef372ff1eeafau64, 0x3c6ef3720ea52731u64, 0x492a56c3950c2769u64, 0x492a56cab046ff1bu64, 0x860d30035d47f8c9u64, 0x860d3002515d98cfu64);
    assert(advance(0x3c6ef372ff1eeafau64) == 0xdaa66d2c7e69670fu64);
    assert(0xdaa66d2f14f0d3beu64 == 0xdaa66d2c7e69670fu64 ^ (0xdaa66d2c7e69670fu64 >> 30u64)) by (bit_vector);
    assert(0x86bcdc5c3b3273d3u64 == 0x86bcdc4ceca9fa4eu64 ^ (0x86bcdc4ceca9fa4eu64 >> 27u64)) by (bit_vector);
    assert(0xf85e41fb75d8d644u64 == 0xf85e41fa856455b1u64 ^ (0xf85e41fa856455b1u64 >> 31u64)) by (bit_vector);
    lemma_mix_at(0xdaa66d2c7e69670fu64, 0xdaa66d2f14f0d3beu64, 0x86bcdc4ceca9fa4eu64, 0x86bcdc5c3b3273d3u64, 0xf85e41fa856455b1u64, 0xf85e41fb75d8d644u64);
    assert(advance(0xdaa66d2c7e69670fu64) == 0x78dde6e5fdb3e324u64);
    assert(0x78dde6e41ec478b3u64 == 0x78dde6e5fdb3e324u64 ^ (0x78dde6e5fdb3e324u64 >> 30u64)) by (bit_vector);
    assert(0x1017d7c40da5a09au64 == 0x1017d7c60f5f585bu64 ^ (0x1017d7c60f5f585bu64 >> 27u64)) by (bit_vector);
    assert(0xeca937fc6b7cc8a5u64 == 0xeca937fdb22ea75eu64 ^ (0xeca937fdb22ea75eu64 >> 31u64)) by (bit_vector);
    lemma_mix_at(0x78dde6e5fdb3e324u64, 0x78dde6e41ec478b3u64, 0x1017d7c60f5f585bu64, 0x1017d7c40da5a09au64, 0xeca937fdb22ea75eu64, 0xeca937fc6b7cc8a5u64);
}

} // verus!
