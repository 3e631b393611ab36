//! Compact packings used by the bundled datagram tools and the local
//! two-player demo: a little-endian integer in up to eight bytes, and a ball
//! state in one 64-bit word.

use vstd::prelude::*;

verus! {

/// 256 raised to the n-th power.
pub open spec fn pow256(n: nat) -> nat
    decreases n,
{
    if n == 0 {
        1
    } else {
        256 * pow256((n - 1) as nat)
    }
}

/// The number a byte sequence holds in little-endian order.
pub open spec fn spec_u64_of_le_bytes(bytes: Seq<u8>) -> nat
    decreases bytes.len(),
{
    if bytes.len() == 0 {
        0nat
    } else {
        bytes.first() as nat + 256 * spec_u64_of_le_bytes(bytes.drop_first())
    }
}

/// A little-endian number stays below 256 to the number of its bytes.
pub proof fn lemma_le_bytes_bound(bytes: Seq<u8>)
    ensures
        spec_u64_of_le_bytes(bytes) < pow256(bytes.len()),
    decreases bytes.len(),
{
    if bytes.len() > 0 {
        lemma_le_bytes_bound(bytes.drop_first());
    }
}

/// Larger exponents give larger powers of 256.
pub proof fn lemma_pow256_increases(a: nat, b: nat)
    requires
        a <= b,
    ensures
        pow256(a) <= pow256(b),
    decreases b,
{
    if a < b {
        lemma_pow256_increases(a, (b - 1) as nat);
        assert(pow256((b - 1) as nat) >= 1) by {
            lemma_pow256_at_least_one((b - 1) as nat);
        }
    }
}

/// Every power of 256 is at least one.
pub proof fn lemma_pow256_at_least_one(n: nat)
    ensures
        pow256(n) >= 1,
    decreases n,
{
    if n > 0 {
        lemma_pow256_at_least_one((n - 1) as nat);
    }
}

/// Appending one byte adds it at the highest position.
pub proof fn lemma_le_bytes_push(bytes: Seq<u8>, b: u8)
    ensures
        spec_u64_of_le_bytes(bytes.push(b)) == spec_u64_of_le_bytes(bytes) + b * pow256(
            bytes.len(),
        ),
    decreases bytes.len(),
{
    if bytes.len() == 0 {
        assert(bytes.push(b) =~= seq![b]);
        assert(seq![b].drop_first() =~= Seq::<u8>::empty());
        assert(spec_u64_of_le_bytes(Seq::<u8>::empty()) == 0);
        assert(spec_u64_of_le_bytes(seq![b]) == b as nat + 256 * spec_u64_of_le_bytes(
            Seq::<u8>::empty(),
        ));
        assert(pow256(0nat) == 1);
        assert(spec_u64_of_le_bytes(bytes) == 0);
    } else {
        assert(bytes.push(b).drop_first() =~= bytes.drop_first().push(b));
        assert(bytes.push(b).first() == bytes.first());
        assert(spec_u64_of_le_bytes(bytes.push(b)) == bytes.first() as nat + 256
            * spec_u64_of_le_bytes(bytes.drop_first().push(b)));
        lemma_le_bytes_push(bytes.drop_first(), b);
        let rest = spec_u64_of_le_bytes(bytes.drop_first());
        let p = pow256((bytes.len() - 1) as nat);
        assert(spec_u64_of_le_bytes(bytes.drop_first().push(b)) == rest + b * p);
        assert(spec_u64_of_le_bytes(bytes) == bytes.first() as nat + 256 * rest);
        assert(256 * (rest + b * p) == 256 * rest + b * (256 * p)) by (nonlinear_arith);
        assert(pow256(bytes.len()) == 256 * p);
        assert(spec_u64_of_le_bytes(bytes.push(b)) == bytes.first() as nat + 256 * rest + b * (256
            * p));
    }
}

/// Reads the number that up to eight bytes hold in little-endian order.
pub fn deserialize_u64(u: &[u8]) -> (r: u64)
    requires
        u@.len() <= 8,
    ensures
        r == spec_u64_of_le_bytes(u@),
{
    let mut acc: u64 = 0;
    let mut i: usize = u.len();
    proof {
        assert(u@.skip(u@.len() as int) =~= Seq::<u8>::empty());
    }
    while i > 0
        invariant
            i <= u@.len() <= 8,
            acc == spec_u64_of_le_bytes(u@.skip(i as int)),
        decreases i,
    {
        i = i - 1;
        proof {
            lemma_le_bytes_bound(u@.skip(i as int + 1));
            lemma_pow256_increases((u@.len() - i - 1) as nat, 7);
            assert(pow256(7) == 0x100000000000000) by {
                reveal_with_fuel(pow256, 9);
            }
        }
        acc = acc * 256 + (u[i] as u64);
        proof {
            assert(u@.skip(i as int).drop_first() =~= u@.skip(i as int + 1));
            assert(u@.skip(i as int).first() == u@[i as int]);
        }
    }
    proof {
        assert(u@.skip(0) =~= u@);
    }
    acc
}

/// Writes a number as its eight little-endian bytes.
pub fn serialize_u64(u: u64) -> (r: Vec<u8>)
    ensures
        r@.len() == 8,
        spec_u64_of_le_bytes(r@) == u,
{
    let mut bytes: Vec<u8> = Vec::new();
    let mut x: u64 = u;
    let mut i: usize = 0;
    proof {
        reveal_with_fuel(pow256, 9);
        assert(pow256(0) == 1);
        assert(pow256(8) == 0x10000000000000000);
        assert(spec_u64_of_le_bytes(bytes@) == 0);
    }
    while i < 8
        invariant
            i <= 8,
            bytes@.len() == i,
            u == spec_u64_of_le_bytes(bytes@) + x * pow256(i as nat),
            x < pow256((8 - i) as nat),
        decreases 8 - i,
    {
        let b = (x % 256) as u8;
        proof {
            lemma_le_bytes_push(bytes@, b);
            lemma_pow256_at_least_one((7 - i) as nat);
            assert(x == 256 * (x / 256) + x % 256) by {
                vstd::arithmetic::div_mod::lemma_fundamental_div_mod(x as int, 256);
            }
            assert(x * pow256(i as nat) == (x % 256) * pow256(i as nat) + (x / 256) * (256
                * pow256(i as nat))) by (nonlinear_arith)
                requires
                    x == 256 * (x / 256) + x % 256,
            ;
            assert(x / 256 < pow256((7 - i) as nat)) by (nonlinear_arith)
                requires
                    x < 256 * pow256((7 - i) as nat),
                    pow256((7 - i) as nat) >= 1,
            ;
        }
        bytes.push(b);
        x = x / 256;
        i = i + 1;
    }
    proof {
        assert(pow256(0) == 1);
    }
    bytes
}

/// A ball state as the local two-player demo packs it into one atomic word.
#[derive(Clone, Copy, Debug, PartialEq, Eq, Structural)]
pub struct Ball {
    pub x: u16,
    pub y: u16,
    pub moving_right: bool,
    pub moving_down: bool,
}

/// The bit a direction flag packs to.
pub open spec fn flag_bit(moving: bool) -> nat {
    if moving {
        1
    } else {
        0
    }
}

/// The word a ball state packs into: the horizontal position in the top
/// sixteen bits, then the vertical position, then one direction flag per
/// sixteen-bit group.
pub open spec fn spec_packed_ball(b: Ball) -> u64 {
    (b.x * 0x1000000000000 + b.y * 0x100000000 + flag_bit(b.moving_right) * 0x10000 + flag_bit(
        b.moving_down,
    )) as u64
}

/// The ball state a word unpacks to. A direction flag is set exactly when its
/// sixteen-bit group holds the value one.
pub open spec fn spec_unpacked_ball(w: u64) -> Ball {
    Ball {
        x: (w / 0x1000000000000) as u16,
        y: (w / 0x100000000) as u16,
        moving_right: (w / 0x10000) as u16 == 1,
        moving_down: w as u16 == 1,
    }
}

/// Packs a ball state into one word.
pub fn serialize_ball(ball: Ball) -> (r: u64)
    ensures
        r == spec_packed_ball(ball),
{
    let moving_right: u64 = if ball.moving_right {
        1
    } else {
        0
    };
    let moving_down: u64 = if ball.moving_down {
        1
    } else {
        0
    };
    (ball.x as u64) * 0x1000000000000 + (ball.y as u64) * 0x100000000 + moving_right * 0x10000
        + moving_down
}

/// Unpacks a ball state from one word.
pub fn deserialize_ball(ball: u64) -> (r: Ball)
    ensures
        r == spec_unpacked_ball(ball),
{
    Ball {
        x: (ball / 0x1000000000000) as u16,
        y: (ball / 0x100000000) as u16,
        moving_right: (ball / 0x10000) as u16 == 1,
        moving_down: ball as u16 == 1,
    }
}

/// Round trip: unpacking a packed ball state gives the state back.
pub proof fn lemma_ball_round_trip(b: Ball)
    ensures
        spec_unpacked_ball(spec_packed_ball(b)) == b,
{
    let w = spec_packed_ball(b) as int;
    let low = b.y * 0x100000000 + flag_bit(b.moving_right) * 0x10000 + flag_bit(b.moving_down);
    assert(w / 0x1000000000000 == b.x) by {
        vstd::arithmetic::div_mod::lemma_fundamental_div_mod_converse(
            w,
            0x1000000000000,
            b.x as int,
            low as int,
        );
    }
    let low2 = flag_bit(b.moving_right) * 0x10000 + flag_bit(b.moving_down);
    assert(w / 0x100000000 == b.x * 0x10000 + b.y) by {
        vstd::arithmetic::div_mod::lemma_fundamental_div_mod_converse(
            w,
            0x100000000,
            b.x * 0x10000 + b.y,
            low2 as int,
        );
    }
    assert(w / 0x10000 == b.x * 0x100000000 + b.y * 0x10000 + flag_bit(b.moving_right)) by {
        vstd::arithmetic::div_mod::lemma_fundamental_div_mod_converse(
            w,
            0x10000,
            (b.x * 0x100000000 + b.y * 0x10000 + flag_bit(b.moving_right)) as int,
            flag_bit(b.moving_down) as int,
        );
    }
    let x = b.x as int;
    let y = b.y as int;
    let r = flag_bit(b.moving_right) as int;
    let d = flag_bit(b.moving_down) as int;
    assert((0x10000 * x + y) % 0x10000 == y % 0x10000) by {
        vstd::arithmetic::div_mod::lemma_mod_multiples_vanish(x, y, 0x10000);
    }
    vstd::arithmetic::div_mod::lemma_small_mod(b.y as nat, 0x10000);
    assert(x * 0x100000000 + y * 0x10000 + r == 0x10000 * (0x10000 * x + y) + r)
        by (nonlinear_arith);
    assert((0x10000 * (0x10000 * x + y) + r) % 0x10000 == r % 0x10000) by {
        vstd::arithmetic::div_mod::lemma_mod_multiples_vanish(0x10000 * x + y, r, 0x10000);
    }
    vstd::arithmetic::div_mod::lemma_small_mod(flag_bit(b.moving_right), 0x10000);
    assert(w == 0x10000 * (0x10000 * (0x10000 * x + y) + r) + d) by (nonlinear_arith)
        requires
            w == x * 0x1000000000000 + y * 0x100000000 + r * 0x10000 + d,
    ;
    assert(w % 0x10000 == d % 0x10000) by {
        vstd::arithmetic::div_mod::lemma_mod_multiples_vanish(
            0x10000 * (0x10000 * x + y) + r,
            d,
            0x10000,
        );
    }
    vstd::arithmetic::div_mod::lemma_small_mod(flag_bit(b.moving_down), 0x10000);
    assert(w / 0x100000000 == 0x10000 * x + y) by (nonlinear_arith)
        requires
            w / 0x100000000 == b.x * 0x10000 + b.y,
            x == b.x && y == b.y,
    ;
    assert(forall|q: u64| #[trigger] (q as u16) == q % 0x10000) by (bit_vector);
}

} // verus!
