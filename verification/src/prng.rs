//! The deterministic random stream: a lagged Fibonacci pseudo-random number
//! generator seeded from an arbitrary byte buffer.
//!
//! The whole point of this generator is reproducibility: its entire behaviour
//! is pinned, value for value, by the spec-level model [`PrngModel`], so that
//! identical seeds provably yield identical streams on every machine.

use vstd::prelude::*;

verus! {

/// Number of 32-bit words in the circular buffer.
pub const PRNG_BUFFER_LEN: usize = 64;

/// Short lag of the Fibonacci recurrence (taken backwards from the write
/// position, modulo the buffer length).
pub const PRNG_LAG_SHORT: usize = 9;

/// Long lag of the Fibonacci recurrence.
pub const PRNG_LAG_LONG: usize = 40;

/// Every produced value is reduced modulo this bound, so all stream values
/// fit in 31 bits and two of them can be added without overflow.
pub const PRNG_VALUE_BOUND: u32 = 0x8000_0000;

/// Fill word for buffer positions not covered by the seed.
pub const PRNG_FILL_WORD: u32 = 0x00A9_8765;

/// At most this many leading seed bytes take part in the initial buffer.
pub const PRNG_SEED_PREFIX: usize = 54;

/// Number of warm-up draws discarded right after seeding.
pub const PRNG_WARMUP: usize = 64;

/// Mathematical state of the generator: the circular buffer contents and the
/// index of the most recently written word.
pub struct PrngModel {
    pub buffer: Seq<u32>,
    pub index: int,
}

impl PrngModel {
    /// Structural validity: fixed buffer length, index in range, and every
    /// word below [`PRNG_VALUE_BOUND`] (which keeps the recurrence free of
    /// `u32` overflow).
    pub open spec fn wf(self) -> bool {
        &&& self.buffer.len() == PRNG_BUFFER_LEN
        &&& 0 <= self.index < PRNG_BUFFER_LEN
        &&& forall|i: int| 0 <= i < PRNG_BUFFER_LEN ==> self.buffer[i] < PRNG_VALUE_BOUND
    }

    /// The value produced by the next draw.
    pub open spec fn next_val(self) -> u32 {
        let j = (self.index + 1) % (PRNG_BUFFER_LEN as int);
        let a = self.buffer[(j + PRNG_LAG_SHORT) % (PRNG_BUFFER_LEN as int)];
        let b = self.buffer[(j + PRNG_LAG_LONG) % (PRNG_BUFFER_LEN as int)];
        (((a + b) as int) % (PRNG_VALUE_BOUND as int)) as u32
    }

    /// State after one draw.
    pub open spec fn stepped(self) -> PrngModel {
        let j = (self.index + 1) % (PRNG_BUFFER_LEN as int);
        PrngModel { buffer: self.buffer.update(j, self.next_val()), index: j }
    }

    /// State after `n` draws.
    pub open spec fn stepped_n(self, n: nat) -> PrngModel
        decreases n,
    {
        if n == 0 {
            self
        } else {
            self.stepped_n((n - 1) as nat).stepped()
        }
    }

    /// Initial buffer contents for a seed: the leading seed bytes (at most
    /// [`PRNG_SEED_PREFIX`] of them), then fill words.
    pub open spec fn seeded_buffer(seed: Seq<u8>) -> Seq<u32> {
        Seq::new(
            PRNG_BUFFER_LEN as nat,
            |i: int|
                if i < seed.len() && i < PRNG_SEED_PREFIX {
                    seed[i] as u32
                } else {
                    PRNG_FILL_WORD
                },
        )
    }

    /// The generator state a seed deterministically produces: the seeded
    /// buffer, write position at the seed prefix bound, then the warm-up
    /// draws applied.
    pub open spec fn from_seed(seed: Seq<u8>) -> PrngModel {
        (PrngModel {
            buffer: PrngModel::seeded_buffer(seed),
            index: PRNG_SEED_PREFIX as int,
        }).stepped_n(PRNG_WARMUP as nat)
    }

    /// One draw preserves validity.
    pub proof fn lemma_stepped_wf(self)
        requires
            self.wf(),
        ensures
            self.stepped().wf(),
    {
    }

}

/// Executable lagged Fibonacci generator. Its view is the [`PrngModel`] it
/// denotes; every operation's contract pins the successor state exactly.
pub struct LaggedFibonacciPrng {
    pub buffer: Vec<u32>,
    pub index: usize,
}

impl View for LaggedFibonacciPrng {
    type V = PrngModel;

    open spec fn view(&self) -> PrngModel {
        PrngModel { buffer: self.buffer@, index: self.index as int }
    }
}

impl LaggedFibonacciPrng {
    /// Build a generator from a seed buffer. Identical seeds give identical
    /// generators: the result is exactly `PrngModel::from_seed(seed@)`.
    pub fn new(seed: &[u8]) -> (prng: LaggedFibonacciPrng)
        ensures
            prng@ == PrngModel::from_seed(seed@),
            prng@.wf(),
    {
        let ghost seeded = PrngModel { buffer: PrngModel::seeded_buffer(seed@), index: PRNG_SEED_PREFIX as int };
        let mut buffer: Vec<u32> = Vec::new();
        let mut i: usize = 0;
        while i < PRNG_BUFFER_LEN
            invariant
                i <= PRNG_BUFFER_LEN,
                buffer@.len() == i,
                forall|t: int| 0 <= t < i ==> buffer@[t] == PrngModel::seeded_buffer(seed@)[t],
            decreases PRNG_BUFFER_LEN - i,
        {
            let word: u32 = if i < seed.len() && i < PRNG_SEED_PREFIX {
                seed[i] as u32
            } else {
                PRNG_FILL_WORD
            };
            buffer.push(word);
            i += 1;
        }
        proof {
            assert(buffer@ =~= PrngModel::seeded_buffer(seed@));
            assert(seeded.wf());
        }
        let mut prng = LaggedFibonacciPrng { buffer, index: PRNG_SEED_PREFIX };
        let mut k: usize = 0;
        while k < PRNG_WARMUP
            invariant
                k <= PRNG_WARMUP,
                prng@ == seeded.stepped_n(k as nat),
                prng@.wf(),
            decreases PRNG_WARMUP - k,
        {
            prng.advance();
            k += 1;
        }
        prng
    }

    /// One raw draw from the stream.
    fn advance(&mut self) -> (v: u32)
        requires
            old(self)@.wf(),
        ensures
            final(self)@ == old(self)@.stepped(),
            final(self)@.wf(),
            v == old(self)@.next_val(),
    {
        let j = (self.index + 1) % PRNG_BUFFER_LEN;
        let a = self.buffer[(j + PRNG_LAG_SHORT) % PRNG_BUFFER_LEN];
        let b = self.buffer[(j + PRNG_LAG_LONG) % PRNG_BUFFER_LEN];
        let v = (a + b) % PRNG_VALUE_BOUND;
        self.buffer.set(j, v);
        self.index = j;
        proof {
            old(self)@.lemma_stepped_wf();
        }
        v
    }

    /// One draw reduced below `modulo`, as the generation code consumes it.
    pub fn get_random(&mut self, modulo: u32) -> (v: u32)
        requires
            old(self)@.wf(),
            modulo > 0,
        ensures
            final(self)@ == old(self)@.stepped(),
            final(self)@.wf(),
            v == old(self)@.next_val() % modulo,
            v < modulo,
    {
        let raw = self.advance();
        raw % modulo
    }
}

} // verus!
