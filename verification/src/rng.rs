use vstd::prelude::*;

verus! {

/// Advance the generator state: a 64-bit xorshift step. The whole
/// behaviour of the generator is this pure function, so two sources
/// seeded alike produce identical draws forever.
pub open spec fn spec_next_state(s: u64) -> u64 {
    let a = s ^ (s << 13);
    let b = a ^ (a >> 7);
    b ^ (b << 17)
}

/// The draw `range` returns for a given state: `lo + state' mod (hi - lo)`.
pub open spec fn spec_range(s: u64, lo: int, hi: int) -> int
    recommends
        lo < hi,
{
    lo + (spec_next_state(s) as int) % (hi - lo)
}

/// Sum of `n` sequential dice draws from `[1, d]`, together with the state
/// left behind; the state threads through the draws front to back.
pub open spec fn spec_roll(s: u64, n: nat, d: int) -> (int, u64)
    decreases n,
{
    if n == 0 {
        (0, s)
    } else {
        let first = spec_range(s, 1, d + 1);
        let rest = spec_roll(spec_next_state(s), (n - 1) as nat, d);
        (first + rest.0, rest.1)
    }
}

/// The injected uniform-integer source. Every draw is a pure function of
/// the current state, so a fixed seed reproduces a run exactly.
pub struct RandomSource {
    pub state: u64,
}

impl RandomSource {
    /// The low bit is forced on so the xorshift state is never zero
    /// (zero is a fixed point of the step function).
    pub fn seeded(seed: u64) -> (r: RandomSource)
        ensures
            r.state == seed | 1u64,
    {
        RandomSource { state: seed | 1u64 }
    }

    pub fn next_u64(&mut self) -> (r: u64)
        ensures
            final(self).state == spec_next_state(old(self).state),
            r == final(self).state,
    {
        let a = self.state ^ (self.state << 13u64);
        let b = a ^ (a >> 7u64);
        let c = b ^ (b << 17u64);
        self.state = c;
        c
    }

    /// Uniform draw from the half-open range `[lo, hi)`.
    pub fn range(&mut self, lo: i32, hi: i32) -> (r: i32)
        requires
            lo < hi,
        ensures
            lo <= r < hi,
            r == spec_range(old(self).state, lo as int, hi as int),
            final(self).state == spec_next_state(old(self).state),
    {
        let draw = self.next_u64();
        let span = ((hi as i64) - (lo as i64)) as u64;
        let offset = draw % span;
        ((lo as i64) + (offset as i64)) as i32
    }

    /// Sum of `n` dice with `d` faces: `n` draws from `[1, d]`.
    pub fn roll_dice(&mut self, n: i32, d: i32) -> (r: i32)
        requires
            0 <= n <= 1000,
            1 <= d <= 1000000,
        ensures
            n <= r <= n * d,
            r == spec_roll(old(self).state, n as nat, d as int).0,
            final(self).state == spec_roll(old(self).state, n as nat, d as int).1,
    {
        let ghost s0 = self.state;
        let mut sum: i64 = 0;
        let mut i: i32 = 0;
        while i < n
            invariant
                0 <= i <= n,
                n <= 1000,
                1 <= d <= 1000000,
                i <= sum <= i * d,
                sum + spec_roll(self.state, (n - i) as nat, d as int).0 == spec_roll(
                    s0,
                    n as nat,
                    d as int,
                ).0,
                spec_roll(self.state, (n - i) as nat, d as int).1 == spec_roll(
                    s0,
                    n as nat,
                    d as int,
                ).1,
            decreases n - i,
        {
            proof {
                assert(0 <= i * d <= 1000 * 1000000) by (nonlinear_arith)
                    requires
                        0 <= i <= 1000,
                        1 <= d <= 1000000,
                ;
                assert((i + 1) * d == i * d + d) by (nonlinear_arith);
                assert(spec_roll(self.state, (n - i) as nat, d as int).0 == spec_range(
                    self.state,
                    1,
                    d as int + 1,
                ) + spec_roll(spec_next_state(self.state), (n - i - 1) as nat, d as int).0);
                assert(spec_roll(self.state, (n - i) as nat, d as int).1 == spec_roll(
                    spec_next_state(self.state),
                    (n - i - 1) as nat,
                    d as int,
                ).1);
            }
            let draw = self.range(1, d + 1);
            sum = sum + (draw as i64);
            i = i + 1;
        }
        proof {
            assert(0 <= n * d <= 1000 * 1000000) by (nonlinear_arith)
                requires
                    0 <= n <= 1000,
                    1 <= d <= 1000000,
            ;
        }
        sum as i32
    }
}

} // verus!
