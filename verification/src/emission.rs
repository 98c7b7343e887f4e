//! How a pool fills: a fixed number of particles per frame until the capacity
//! is reached, and none after that.

use vstd::prelude::*;

verus! {

/// Particles that one frame adds to a pool of `len` particles.
pub open spec fn emitted(len: nat, capacity: nat, rate: nat) -> nat {
    if len >= capacity {
        0
    } else if rate <= capacity - len {
        rate
    } else {
        (capacity - len) as nat
    }
}

/// Particles in the pool after `frames` further frames.
pub open spec fn len_after(len: nat, capacity: nat, rate: nat, frames: nat) -> nat
    decreases frames,
{
    if frames == 0 {
        len
    } else {
        let before = len_after(len, capacity, rate, (frames - 1) as nat);
        before + emitted(before, capacity, rate)
    }
}

/// The smaller of two numbers.
pub open spec fn least(a: nat, b: nat) -> nat {
    if a <= b {
        a
    } else {
        b
    }
}

/// One frame adds the emission rate or what room is left, whichever is less,
/// and never takes the pool past its capacity.
pub proof fn lemma_emitted_is_least(len: nat, capacity: nat, rate: nat)
    requires
        len <= capacity,
    ensures
        emitted(len, capacity, rate) == least(rate, (capacity - len) as nat),
        len + emitted(len, capacity, rate) <= capacity,
{
}

/// After any number of frames the pool holds the start plus the rate per
/// frame, cut off at the capacity.
pub proof fn lemma_len_after_closed_form(len: nat, capacity: nat, rate: nat, frames: nat)
    requires
        len <= capacity,
    ensures
        len_after(len, capacity, rate, frames) == least(capacity, len + frames * rate),
    decreases frames,
{
    if frames == 0 {
        assert(frames * rate == 0) by (nonlinear_arith)
            requires
                frames == 0,
        ;
    } else {
        let earlier = (frames - 1) as nat;
        lemma_len_after_closed_form(len, capacity, rate, earlier);
        assert(frames * rate == earlier * rate + rate && earlier * rate >= 0) by (nonlinear_arith)
            requires
                earlier + 1 == frames,
        ;
    }
}

/// The pool never shrinks and never exceeds its capacity.
pub proof fn lemma_len_after_monotone(
    len: nat,
    capacity: nat,
    rate: nat,
    earlier: nat,
    later: nat,
)
    requires
        len <= capacity,
        earlier <= later,
    ensures
        len <= len_after(len, capacity, rate, earlier),
        len_after(len, capacity, rate, earlier) <= len_after(len, capacity, rate, later),
        len_after(len, capacity, rate, later) <= capacity,
    decreases later,
{
    lemma_len_after_closed_form(len, capacity, rate, earlier);
    lemma_len_after_closed_form(len, capacity, rate, later);
    assert(earlier * rate <= later * rate) by (nonlinear_arith)
        requires
            earlier <= later,
    ;
}

/// Once the pool is full it stays full.
pub proof fn lemma_full_stays_full(len: nat, capacity: nat, rate: nat, earlier: nat, later: nat)
    requires
        len <= capacity,
        earlier <= later,
        len_after(len, capacity, rate, earlier) == capacity,
    ensures
        len_after(len, capacity, rate, later) == capacity,
{
    lemma_len_after_monotone(len, capacity, rate, earlier, later);
}

/// Frames split: running `first` frames and then `second` more is running
/// them all.
pub proof fn lemma_len_after_split(len: nat, capacity: nat, rate: nat, first: nat, second: nat)
    ensures
        len_after(len_after(len, capacity, rate, first), capacity, rate, second) == len_after(
            len,
            capacity,
            rate,
            first + second,
        ),
    decreases second,
{
    if second > 0 {
        lemma_len_after_split(len, capacity, rate, first, (second - 1) as nat);
        assert(first + second - 1 == first + (second - 1) as nat);
    }
}

} // verus!
