use vstd::prelude::*;
use crate::engine::wasi::{link_all, link_outcome, Interface};

verus! {

/// The `i`-th byte, counted from `offset`, of the endless repetition of `cycle`.
pub open spec fn cycle_at(cycle: Seq<u8>, offset: int, i: int) -> u8 {
    cycle[(offset + i) % (cycle.len() as int)]
}

/// Big-endian value of four bytes.
pub open spec fn be_u32(b0: u8, b1: u8, b2: u8, b3: u8) -> int {
    b0 * 0x100_0000 + b1 * 0x1_0000 + b2 * 0x100 + b3
}

/// Four drawn bytes make a `u32` big-endian: the first byte drawn is the
/// most significant and the last the least, so each byte can be read back
/// from its place.
pub proof fn lemma_first_byte_is_most_significant(b0: u8, b1: u8, b2: u8, b3: u8)
    ensures
        0 <= be_u32(b0, b1, b2, b3) <= u32::MAX,
        be_u32(b0, b1, b2, b3) / 0x100_0000 == b0,
        (be_u32(b0, b1, b2, b3) / 0x1_0000) % 0x100 == b1,
        (be_u32(b0, b1, b2, b3) / 0x100) % 0x100 == b2,
        be_u32(b0, b1, b2, b3) % 0x100 == b3,
{
    let v = be_u32(b0, b1, b2, b3);
    assert(v == b0 * 0x100_0000 + b1 * 0x1_0000 + b2 * 0x100 + b3);
    assert(0 <= v <= u32::MAX) by (nonlinear_arith)
        requires
            v == b0 * 0x100_0000 + b1 * 0x1_0000 + b2 * 0x100 + b3,
            0 <= b0 < 256,
            0 <= b1 < 256,
            0 <= b2 < 256,
            0 <= b3 < 256,
    ;
    assert(v / 0x100_0000 == b0 && (v / 0x1_0000) % 0x100 == b1 && (v / 0x100) % 0x100 == b2 && v
        % 0x100 == b3) by (nonlinear_arith)
        requires
            v == b0 * 0x100_0000 + b1 * 0x1_0000 + b2 * 0x100 + b3,
            0 <= b0 < 256,
            0 <= b1 < 256,
            0 <= b2 < 256,
            0 <= b3 < 256,
    ;
}

/// Drawing `n` bytes and then `i` more reads the stream exactly where a
/// single draw of `n + i` bytes would have: consecutive draws continue the
/// cycle without skipping or repeating a byte.
pub proof fn lemma_draws_continue(cycle: Seq<u8>, offset: nat, n: nat, i: nat)
    requires
        cycle.len() > 0,
    ensures
        cycle_at(cycle, (offset as int + n as int) % (cycle.len() as int), i as int)
            == cycle_at(cycle, offset as int, (n + i) as int),
{
    let l = cycle.len() as int;
    let a = offset as int + n as int;
    assert(((a % l) + i as int) % l == (a + i as int) % l) by {
        vstd::arithmetic::div_mod::lemma_add_mod_noop_right(i as int, a, l);
    }
}

/// `insecure-random` implemented as a deterministic cycle over a fixed
/// sequence of bytes.
pub struct Deterministic {
    bytes: Vec<u8>,
    pos: usize,
}

impl Deterministic {
    #[verifier::type_invariant]
    spec fn inv(self) -> bool {
        if self.bytes.len() == 0 {
            self.pos == 0
        } else {
            self.pos < self.bytes.len()
        }
    }

    /// The bytes that the cycle repeats.
    pub closed spec fn cycle(self) -> Seq<u8> {
        self.bytes@
    }

    /// How far into the cycle the next byte lies.
    pub closed spec fn offset(self) -> nat {
        self.pos as nat
    }

    /// The `i`-th byte that this generator will yield from now on.
    pub open spec fn upcoming(self, i: int) -> u8 {
        cycle_at(self.cycle(), self.offset() as int, i)
    }

    /// The `n` bytes that this generator will yield next, in order.
    pub open spec fn upcoming_bytes(self, n: nat) -> Seq<u8> {
        Seq::new(n, |i: int| self.upcoming(i))
    }

    /// Whether `self` is `prev` after `n` more bytes were drawn from it.
    pub open spec fn drawn_from(self, prev: Self, n: nat) -> bool {
        &&& self.cycle() == prev.cycle()
        &&& self.offset() as int == (prev.offset() as int + n as int) % (prev.cycle().len() as int)
    }

    /// Creates a generator that yields `bytes` over and over, starting with
    /// the first.
    pub fn new(bytes: Vec<u8>) -> (r: Self)
        ensures
            r.cycle() == bytes@,
            r.offset() == 0,
    {
        Deterministic { bytes, pos: 0 }
    }

    fn next_byte(&mut self) -> (b: u8)
        requires
            old(self).cycle().len() > 0,
        ensures
            b == old(self).upcoming(0),
            final(self).drawn_from(*old(self), 1),
    {
        proof { use_type_invariant(&*self); }
        let b = self.bytes[self.pos];
        if self.pos + 1 == self.bytes.len() {
            self.pos = 0;
        } else {
            self.pos = self.pos + 1;
        }
        proof {
            let len = old(self).cycle().len() as int;
            let p = old(self).offset() as int;
            assert(p % len == p) by (nonlinear_arith) requires 0 <= p < len;
            assert((p + 1) % len == if p + 1 == len { 0 } else { p + 1 }) by (nonlinear_arith)
                requires 0 <= p < len;
        }
        b
    }

    /// Draws four bytes and reads them as a big-endian `u32`.
    pub fn next_u32(&mut self) -> (r: u32)
        requires
            old(self).cycle().len() > 0,
        ensures
            r == be_u32(
                old(self).upcoming(0),
                old(self).upcoming(1),
                old(self).upcoming(2),
                old(self).upcoming(3),
            ),
            final(self).drawn_from(*old(self), 4),
    {
        let ghost s0 = *self;
        let b0 = self.next_byte();
        let ghost s1 = *self;
        let b1 = self.next_byte();
        let ghost s2 = *self;
        let b2 = self.next_byte();
        let ghost s3 = *self;
        let b3 = self.next_byte();
        proof {
            let c = s0.cycle();
            let l = c.len() as int;
            lemma_draws_continue(c, s0.offset(), 1, 0);
            lemma_draws_continue(c, s1.offset(), 1, 0);
            lemma_draws_continue(c, s0.offset(), 1, 1);
            lemma_draws_continue(c, s2.offset(), 1, 0);
            lemma_draws_continue(c, s1.offset(), 1, 1);
            lemma_draws_continue(c, s0.offset(), 1, 2);
            vstd::arithmetic::div_mod::lemma_add_mod_noop_right(1, s0.offset() as int + 1 as int, l);
            vstd::arithmetic::div_mod::lemma_add_mod_noop_right(1, s0.offset() as int + 2 as int, l);
            vstd::arithmetic::div_mod::lemma_add_mod_noop_right(1, s0.offset() as int + 3 as int, l);
            assert(b0 as u32 <= 0xff && b1 as u32 <= 0xff && b2 as u32 <= 0xff && b3 as u32 <= 0xff);
        }
        let w0 = (b0 as u32) << 24;
        let w1 = (b1 as u32) << 16;
        let w2 = (b2 as u32) << 8;
        proof {
            let (x0, x1, x2) = (b0 as u32, b1 as u32, b2 as u32);
            assert(x0 <= 0xff ==> x0 << 24 == x0 * 0x100_0000) by (bit_vector);
            assert(x1 <= 0xff ==> x1 << 16 == x1 * 0x1_0000) by (bit_vector);
            assert(x2 <= 0xff ==> x2 << 8 == x2 * 0x100) by (bit_vector);
        }
        w0 + w1 + w2 + (b3 as u32)
    }

    /// Draws eight bytes: the first four, big-endian, are the high half of
    /// the result and the next four its low half.
    pub fn next_u64(&mut self) -> (r: u64)
        requires
            old(self).cycle().len() > 0,
        ensures
            r == be_u32(
                old(self).upcoming(0),
                old(self).upcoming(1),
                old(self).upcoming(2),
                old(self).upcoming(3),
            ) * 0x1_0000_0000 + be_u32(
                old(self).upcoming(4),
                old(self).upcoming(5),
                old(self).upcoming(6),
                old(self).upcoming(7),
            ),
            final(self).drawn_from(*old(self), 8),
    {
        let ghost s0 = *self;
        let w0 = self.next_u32();
        let ghost s1 = *self;
        let w1 = self.next_u32();
        proof {
            let c = s0.cycle();
            let l = c.len() as int;
            assert forall|i: nat| i < 4 implies s1.upcoming(i as int) == s0.upcoming(4 + i as int) by {
                lemma_draws_continue(c, s0.offset(), 4, i);
            }
            assert(s1.upcoming(0) == s0.upcoming(4));
            assert(s1.upcoming(1) == s0.upcoming(5));
            assert(s1.upcoming(2) == s0.upcoming(6));
            assert(s1.upcoming(3) == s0.upcoming(7));
            vstd::arithmetic::div_mod::lemma_add_mod_noop_right(4, s0.offset() as int + 4 as int, l);
            let x = w0 as u64;
            assert(x << 32 == x * 0x1_0000_0000) by (bit_vector) requires x <= 0xffff_ffff;
        }
        ((w0 as u64) << 32) + (w1 as u64)
    }

    /// Overwrites every byte of `buf`, in order, with the next bytes of the
    /// cycle.
    pub fn fill_bytes(&mut self, buf: &mut Vec<u8>)
        requires
            old(buf).len() == 0 || old(self).cycle().len() > 0,
        ensures
            final(buf)@ == old(self).upcoming_bytes(old(buf).len() as nat),
            old(buf).len() == 0 ==> *final(self) == *old(self),
            old(buf).len() > 0 ==> final(self).drawn_from(*old(self), old(buf).len() as nat),
    {
        let ghost s0 = *self;
        let n = buf.len();
        let mut i: usize = 0;
        while i < n
            invariant
                0 <= i <= n,
                n == buf.len(),
                n > 0 ==> s0.cycle().len() > 0,
                forall|j: int| 0 <= j < i ==> buf@[j] == s0.upcoming(j),
                i == 0 ==> *self == s0,
                i > 0 ==> self.drawn_from(s0, i as nat),
            decreases n - i,
        {
            let ghost before = *self;
            let b = self.next_byte();
            proof {
                let c = s0.cycle();
                let l = c.len() as int;
                if i > 0 {
                    lemma_draws_continue(c, s0.offset(), i as nat, 0);
                    vstd::arithmetic::div_mod::lemma_add_mod_noop_right(1, s0.offset() as int + i as int, l);
                } else {
                    vstd::arithmetic::div_mod::lemma_small_mod(0, l as nat);
                }
            }
            buf[i] = b;
            i = i + 1;
        }
        assert(buf@ =~= s0.upcoming_bytes(n as nat));
    }

    /// Same as `fill_bytes`; a cycle of bytes cannot fail to produce more.
    pub fn try_fill_bytes(&mut self, buf: &mut Vec<u8>) -> (r: Result<(), ()>)
        requires
            old(buf).len() == 0 || old(self).cycle().len() > 0,
        ensures
            r is Ok,
            final(buf)@ == old(self).upcoming_bytes(old(buf).len() as nat),
            old(buf).len() == 0 ==> *final(self) == *old(self),
            old(buf).len() > 0 ==> final(self).drawn_from(*old(self), old(buf).len() as nat),
    {
        self.fill_bytes(buf);
        Ok(())
    }
}

/// One call on a [`Deterministic`] generator, by the bytes it draws.
pub enum Draw {
    /// `fill_bytes` or `try_fill_bytes` on a buffer of this length.
    Bytes(nat),
    /// `next_u32`.
    U32,
    /// `next_u64`.
    U64,
}

/// How many bytes a call draws.
pub open spec fn draw_len(d: Draw) -> nat {
    match d {
        Draw::Bytes(n) => n,
        Draw::U32 => 4,
        Draw::U64 => 8,
    }
}

/// How many bytes a sequence of calls draws.
pub open spec fn total_drawn(calls: Seq<Draw>) -> nat
    decreases calls.len(),
{
    if calls.len() == 0 {
        0
    } else {
        total_drawn(calls.drop_last()) + draw_len(calls.last())
    }
}

/// Whether `states` are the states a generator goes through under `calls`,
/// as the contracts of the calls leave them: `states[i + 1]` is
/// `states[i]` after call `i`.
pub open spec fn is_run(states: Seq<Deterministic>, calls: Seq<Draw>) -> bool {
    &&& states.len() == calls.len() + 1
    &&& states[0].cycle().len() > 0
    &&& forall|i: int|
        0 <= i < calls.len() ==> if draw_len(#[trigger] calls[i]) == 0 {
            states[i + 1] == states[i]
        } else {
            states[i + 1].drawn_from(states[i], draw_len(calls[i]))
        }
}

/// Whatever mix of `fill_bytes`, `try_fill_bytes`, `next_u32` and
/// `next_u64` calls is made, once `k` bytes have been drawn the generator
/// goes on with byte `k` of the endless repetition of its cycle, counted
/// from where it started; for a new generator, byte `k % n` of its `n`
/// bytes.
pub proof fn lemma_any_calls_continue_the_cycle(states: Seq<Deterministic>, calls: Seq<Draw>)
    requires
        is_run(states, calls),
    ensures
        states.last().cycle() == states[0].cycle(),
        forall|j: int|
            0 <= j ==> #[trigger] states.last().upcoming(j) == states[0].upcoming(
                total_drawn(calls) + j,
            ),
        states[0].offset() == 0 ==> forall|j: int|
            0 <= j ==> #[trigger] states.last().upcoming(j) == states[0].cycle()[(total_drawn(calls)
                + j) % (states[0].cycle().len() as int)],
    decreases calls.len(),
{
    if calls.len() == 0 {
        assert(states.last() == states[0]);
    } else {
        let k = calls.len() - 1;
        let pre = states.subrange(0, k + 1);
        let cs = calls.drop_last();
        assert(cs =~= calls.subrange(0, k));
        assert forall|i: int| 0 <= i < cs.len() implies if draw_len(#[trigger] cs[i]) == 0 {
            pre[i + 1] == pre[i]
        } else {
            pre[i + 1].drawn_from(pre[i], draw_len(cs[i]))
        } by {
            assert(cs[i] == calls[i]);
        }
        lemma_any_calls_continue_the_cycle(pre, cs);
        let prev = states[k];
        let last = states.last();
        let d = draw_len(calls[k]);
        assert(pre.last() == prev);
        assert forall|j: int| 0 <= j implies #[trigger] last.upcoming(j) == states[0].upcoming(
            total_drawn(calls) + j,
        ) by {
            assert(prev.upcoming(d + j) == states[0].upcoming(total_drawn(cs) + d + j));
            if d > 0 {
                lemma_draws_continue(prev.cycle(), prev.offset(), d, j as nat);
            }
        }
    }
}

/// Two generators made from the same bytes, and taken through the same
/// calls, are in the same place after each call, so each call gives the
/// same output from both.
pub proof fn lemma_same_bytes_same_outputs(
    a: Seq<Deterministic>,
    b: Seq<Deterministic>,
    calls: Seq<Draw>,
)
    requires
        is_run(a, calls),
        is_run(b, calls),
        a[0].cycle() == b[0].cycle(),
        a[0].offset() == b[0].offset(),
    ensures
        forall|i: int, j: int|
            0 <= i < a.len() && 0 <= j ==> #[trigger] a[i].upcoming(j) == b[i].upcoming(j),
{
    assert forall|i: int, j: int| 0 <= i < a.len() && 0 <= j implies #[trigger] a[i].upcoming(j)
        == b[i].upcoming(j) by {
        let ca = calls.subrange(0, i);
        let sa = a.subrange(0, i + 1);
        let sb = b.subrange(0, i + 1);
        assert forall|k: int| 0 <= k < ca.len() implies if draw_len(#[trigger] ca[k]) == 0 {
            sa[k + 1] == sa[k]
        } else {
            sa[k + 1].drawn_from(sa[k], draw_len(ca[k]))
        } by {
            assert(ca[k] == calls[k]);
        }
        assert forall|k: int| 0 <= k < ca.len() implies if draw_len(#[trigger] ca[k]) == 0 {
            sb[k + 1] == sb[k]
        } else {
            sb[k + 1].drawn_from(sb[k], draw_len(ca[k]))
        } by {
            assert(ca[k] == calls[k]);
        }
        lemma_any_calls_continue_the_cycle(sa, ca);
        lemma_any_calls_continue_the_cycle(sb, ca);
        assert(sa.last() == a[i]);
        assert(sb.last() == b[i]);
        assert(sa.last().upcoming(j) == sa[0].upcoming(total_drawn(ca) + j));
        assert(sb.last().upcoming(j) == sb[0].upcoming(total_drawn(ca) + j));
    }
}

/// Splits the 128-bit insecure seed into its low and high 64-bit halves, the
/// pair that `insecure-seed` reports.
pub fn insecure_seed(seed: u128) -> (r: (u64, u64))
    ensures
        r.0 == seed % 0x1_0000_0000_0000_0000,
        r.1 == seed / 0x1_0000_0000_0000_0000,
{
    let lo = seed as u64;
    let hi = (seed >> 64) as u64;
    proof {
        assert(seed as u64 == seed % 0x1_0000_0000_0000_0000) by (bit_vector);
        assert((seed >> 64) as u64 == seed / 0x1_0000_0000_0000_0000) by (bit_vector);
    }
    (lo, hi)
}


/// The interfaces of `wasi:random`, in the order in which a linker gets them.
pub open spec fn random_interfaces() -> Seq<Interface> {
    seq![Interface::Random, Interface::RandomInsecure, Interface::RandomInsecureSeed]
}

/// The interfaces of `wasi:random`, in the order in which a linker gets them.
pub fn interfaces() -> (r: Vec<Interface>)
    ensures
        r@ == random_interfaces(),
{
    let r = vec![Interface::Random, Interface::RandomInsecure, Interface::RandomInsecureSeed];
    proof {
        assert(r@ =~= random_interfaces());
    }
    r
}

/// Gives a linker all of `wasi:random`; stops at the first error.
pub fn add_to_linker<E, F: Fn(Interface) -> Result<(), E>>(link: &F) -> (r: Result<(), E>)
    requires
        forall|s: Interface| call_requires(*link, (s,)),
    ensures
        link_outcome(*link, random_interfaces(), r),
{
    link_all(link, interfaces())
}

} // verus!
