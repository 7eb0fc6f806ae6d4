//! The mapping from a token to the shard that owns it.

use vstd::prelude::*;
use vstd::arithmetic::div_mod::lemma_mul_mod_noop_left;
use vstd::arithmetic::power2::{lemma2_to64, lemma_pow2_unfold, pow2};
pub use crate::token::Token;

verus! {

/// Why a sharder could not be built from the advertised parameters.
#[derive(Clone, Copy, Debug, PartialEq, Eq, Structural)]
pub enum ShardingError {
    /// The node advertised no shards at all.
    ZeroShards,
    /// More ignored leading bits than a token has.
    MsbIgnoreTooLarge,
}

/// Two to the power of sixty-four: the size of the biased token space.
pub open spec fn ring_size() -> int {
    0x1_0000_0000_0000_0000
}

/// The token moved from the signed range onto `0 .. ring_size()`.
pub open spec fn biased_token(token: i64) -> int {
    token - i64::MIN
}

/// The biased token with its `msb_ignore` leading bits dropped: moved up by
/// that many binary places, within the ring.
pub open spec fn shifted_token(token: i64, msb_ignore: u8) -> int {
    (biased_token(token) * pow2(msb_ignore as nat)) % ring_size()
}

/// The shard that owns `token` on a node with `nr_shards` shards which
/// ignores the `msb_ignore` leading bits of the biased token: the ring is cut
/// into `nr_shards` equal ranges, and the shifted token lies in one of them.
pub open spec fn shard_of(token: i64, nr_shards: u16, msb_ignore: u8) -> int {
    (shifted_token(token, msb_ignore) * nr_shards) / ring_size()
}

/// Shifting left by `k` places multiplies by two to the `k`, within the ring.
pub proof fn lemma_shift_left_is_multiplication(x: u64, k: u64)
    requires
        k < 64,
    ensures
        (x << k) as int == (x as int * pow2(k as nat)) % ring_size(),
    decreases k,
{
    if k == 0 {
        assert(x << 0u64 == x) by (bit_vector);
        lemma2_to64();
        assert(x as int * 1 == x as int);
    } else {
        let j: u64 = (k - 1) as u64;
        let y: u64 = x << j;
        lemma_shift_left_is_multiplication(x, j);
        assert(x << k == y << 1u64) by (bit_vector)
            requires
                j < 63,
                k == j + 1,
                y == x << j,
        ;
        let low: u64 = y & 0x7fff_ffff_ffff_ffffu64;
        assert(low == y % 0x8000_0000_0000_0000u64 && y << 1u64 == low * 2) by (bit_vector)
            requires
                low == y & 0x7fff_ffff_ffff_ffffu64,
        ;
        assert((y << 1u64) as int == (y as int * 2) % ring_size());
        let p = pow2(j as nat) as int;
        lemma_mul_mod_noop_left(x as int * p, 2, ring_size());
        lemma_pow2_unfold(k as nat);
        assert((x as int * p) * 2 == x as int * pow2(k as nat)) by (nonlinear_arith)
            requires
                pow2(k as nat) == 2 * p,
        ;
    }
}

/// The token-to-shard function of one node.
#[derive(Clone, Copy, Debug, PartialEq, Eq, Structural)]
pub struct Sharder {
    nr_shards: u16,
    msb_ignore: u8,
}

impl Sharder {
    /// What every sharder satisfies: at least one shard, fewer ignored bits
    /// than a token has.
    #[verifier::type_invariant]
    pub closed spec fn wf(self) -> bool {
        self.nr_shards > 0 && self.msb_ignore < 64
    }

    /// The number of shards of the node.
    pub closed spec fn spec_shard_count(self) -> u16 {
        self.nr_shards
    }

    /// The number of leading bits of the biased token that are ignored.
    pub closed spec fn spec_msb_ignore(self) -> u8 {
        self.msb_ignore
    }

    /// The facts of a well-formed sharder, over its public description.
    pub proof fn lemma_wf(self)
        requires
            self.wf(),
        ensures
            self.spec_shard_count() > 0,
            self.spec_msb_ignore() < 64,
            forall|token: Token| 0 <= #[trigger] self.spec_shard_for_token(token) < self.spec_shard_count(),
    {
        assert forall|token: Token| 0 <= #[trigger] self.spec_shard_for_token(token) < self.spec_shard_count() by {
            let shifted = shifted_token(token.value, self.msb_ignore) as u64;
            lemma_range_of_scaled(shifted, self.nr_shards);
        }
    }

    /// The shard of a token depends on the token, the shard count and the
    /// number of ignored bits, and on nothing else: two sharders with the
    /// same parameters agree on every token.
    pub proof fn lemma_shard_is_determined_by_parameters(self, other: Self, token: Token)
        requires
            self.spec_shard_count() == other.spec_shard_count(),
            self.spec_msb_ignore() == other.spec_msb_ignore(),
        ensures
            self.spec_shard_for_token(token) == other.spec_shard_for_token(token),
            self.spec_shard_for_token(token) == shard_of(
                token.value,
                self.spec_shard_count(),
                self.spec_msb_ignore(),
            ),
    {
    }

    /// The shard index this sharder gives to `token`.
    pub open spec fn spec_shard_for_token(self, token: Token) -> int {
        shard_of(token.value, self.spec_shard_count(), self.spec_msb_ignore())
    }

    /// Builds the sharder of a node that advertises `nr_shards` shards and
    /// `msb_ignore` ignored bits.
    pub fn new(nr_shards: u16, msb_ignore: u8) -> (r: Result<Sharder, ShardingError>)
        ensures
            nr_shards == 0 ==> r == Err::<Sharder, ShardingError>(ShardingError::ZeroShards),
            nr_shards != 0 && msb_ignore >= 64 ==> r == Err::<Sharder, ShardingError>(
                ShardingError::MsbIgnoreTooLarge,
            ),
            nr_shards != 0 && msb_ignore < 64 ==> r.is_ok() && r.unwrap().wf()
                && r.unwrap().spec_shard_count() == nr_shards && r.unwrap().spec_msb_ignore()
                == msb_ignore,
    {
        if nr_shards == 0 {
            Err(ShardingError::ZeroShards)
        } else if msb_ignore >= 64 {
            Err(ShardingError::MsbIgnoreTooLarge)
        } else {
            Ok(Sharder { nr_shards, msb_ignore })
        }
    }

    /// Number of shards the node advertises.
    pub fn shard_count(&self) -> (r: u16)
        ensures
            r == self.spec_shard_count(),
            r > 0,
    {
        proof {
            use_type_invariant(self);
        }
        self.nr_shards
    }

    /// Number of leading bits of the biased token that routing ignores.
    pub fn msb_ignore(&self) -> (r: u8)
        ensures
            r == self.spec_msb_ignore(),
            r < 64,
    {
        proof {
            use_type_invariant(self);
        }
        self.msb_ignore
    }

    /// The shard that owns `token`.
    pub fn shard_for_token(&self, token: Token) -> (shard: u16)
        ensures
            shard == self.spec_shard_for_token(token),
            shard < self.spec_shard_count(),
    {
        proof {
            use_type_invariant(self);
        }
        let biased: u64 = if token.value >= 0 {
            (token.value as u64) + 0x8000_0000_0000_0000u64
        } else {
            (token.value - i64::MIN) as u64
        };
        assert(biased == biased_token(token.value)) by {
            let t = token.value;
            if t >= 0 {
                assert((t - i64::MIN) as u64 == (t as u64) + 0x8000_0000_0000_0000u64);
            }
        }
        let shifted: u64 = biased << (self.msb_ignore as u64);
        proof {
            lemma_shift_left_is_multiplication(biased, self.msb_ignore as u64);
            lemma_range_of_scaled(shifted, self.nr_shards);
        }
        let wide: u128 = (shifted as u128) * (self.nr_shards as u128);
        let top: u128 = wide >> 64;
        assert(top == wide / 0x1_0000_0000_0000_0000u128) by (bit_vector)
            requires
                top == wide >> 64,
        ;
        top as u16
    }
}

/// A value below the ring size, scaled by a shard count and divided by the
/// ring size, lies below that shard count.
pub proof fn lemma_range_of_scaled(shifted: u64, nr_shards: u16)
    requires
        nr_shards > 0,
    ensures
        0 <= (shifted as int * nr_shards as int) / ring_size() < nr_shards,
        shifted as int * nr_shards as int <= u128::MAX,
{
    let s = shifted as int;
    let n = nr_shards as int;
    assert(0 <= s * n < ring_size() * n) by (nonlinear_arith)
        requires
            0 <= s < ring_size(),
            0 < n,
    ;
    assert(ring_size() * n <= ring_size() * 0x1_0000) by (nonlinear_arith)
        requires
            n <= 0x1_0000,
    ;
    assert(0 <= (s * n) / ring_size() < n) by (nonlinear_arith)
        requires
            0 <= s * n < ring_size() * n,
            0 < n,
            ring_size() > 0,
    ;
}

} // verus!
