//! Waveform tables and the oscillator playback cursor.
//!
//! A waveform table is a fixed-capacity sequence of `Option<u16>` slots.
//! `Some(v)` is a real amplitude sample; `None` is the terminator sentinel
//! that marks the end of meaningful data and makes playback wrap back to
//! slot 0.  The generators fill a table for a requested shape, length and
//! peak amplitude, always forcing a terminator at slot `length - 1`.

use vstd::prelude::*;

verus! {

/// Fixed capacity of every waveform table, in slots.
pub const MAX_LENGTH: usize = 1000;

/// Largest amplitude the output hardware accepts (a 12-bit DAC).
pub const MAX_AMP: u16 = 0xfff;

/// A waveform table: `MAX_LENGTH` slots, each a real sample or the terminator.
pub type Sample = Vec<Option<u16>>;

/// The closed set of waveform shapes the generator understands.
#[derive(Clone, Copy, PartialEq, Eq, Structural, Debug)]
pub enum Wave {
    Ramp,
    Triangle,
    Saw,
    Flat,
}

/// One oscillator: its shape parameters, its sample table, and the playback
/// cursor (`next`, `last`).
pub struct Osc {
    pub wave: Wave,
    pub sample_count: usize,
    pub max_amp: u16,
    pub sample: Sample,
    pub next: usize,
    pub last: u16,
    pub edit_flag: bool,
}

/// Some slot at or after position `k` is a terminator, so the cursor always
/// meets a `None` before running off the end of the table.
pub open spec fn has_terminator_from(s: Seq<Option<u16>>, k: int) -> bool {
    exists|i: int| k <= i < s.len() && s[i] is None
}

impl Osc {
    /// Well-formedness: the table has full capacity, the cursor is in
    /// bounds with a terminator ahead of it, the requested length is
    /// clamped to `[1, MAX_LENGTH]`, and the amplitude is within the
    /// hardware range.
    pub open spec fn wf(self) -> bool {
        &&& self.sample@.len() == MAX_LENGTH
        &&& self.next < MAX_LENGTH
        &&& has_terminator_from(self.sample@, self.next as int)
        &&& 1 <= self.sample_count <= MAX_LENGTH
        &&& self.max_amp <= MAX_AMP
    }
}

/// The state transition of one playback step: on a real sample the cursor
/// advances and latches the value; on the terminator it wraps to slot 0.
pub open spec fn osc_step(o: Osc) -> Osc {
    match o.sample@[o.next as int] {
        Some(v) => Osc { next: (o.next + 1) as usize, last: v, ..o },
        None => Osc { next: 0, ..o },
    }
}

/// The value a playback step reports: the slot's sample, or the latched
/// `last` value while the cursor sits on the terminator.
pub open spec fn osc_step_out(o: Osc) -> u16 {
    match o.sample@[o.next as int] {
        Some(v) => v,
        None => o.last,
    }
}

/// Read the slot under the cursor and advance: a real sample is returned
/// and latched into `last`; the terminator repeats `last` and wraps the
/// cursor to slot 0 for the following call.
pub fn advance_osc(osc: &mut Osc) -> (val: u16)
    requires
        old(osc).wf(),
    ensures
        final(osc).wf(),
        *final(osc) == osc_step(*old(osc)),
        val == osc_step_out(*old(osc)),
{
    let cur: Option<u16> = osc.sample[osc.next];
    match cur {
        Some(v) => {
            proof {
                let i = choose|i: int|
                    old(osc).next <= i < old(osc).sample@.len() && old(osc).sample@[i] is None;
                assert(old(osc).next < i);
            }
            osc.next = osc.next + 1;
            osc.last = v;
            v
        }
        None => {
            osc.next = 0;
            osc.last
        }
    }
}

/// A table of `MAX_LENGTH` empty slots: no samples, all terminator.
pub fn blank_sample() -> (sample: Sample)
    ensures
        sample@.len() == MAX_LENGTH,
        forall|i: int| 0 <= i < MAX_LENGTH ==> sample@[i] is None,
{
    let mut v: Vec<Option<u16>> = Vec::new();
    let mut i: usize = 0;
    while i < MAX_LENGTH
        invariant
            i <= MAX_LENGTH,
            v@.len() == i,
            forall|j: int| 0 <= j < i ==> v@[j] is None,
        decreases MAX_LENGTH - i,
    {
        v.push(None);
        i = i + 1;
    }
    v
}

/// A fresh, silent oscillator: blank table, cursor at slot 0, shortest
/// valid length, no pending edit.
pub fn new_osc() -> (osc: Osc)
    ensures
        osc.wf(),
        osc.wave == Wave::Flat,
        osc.sample_count == 1,
        osc.max_amp == 0,
        osc.next == 0,
        osc.last == 0,
        osc.edit_flag == false,
        forall|i: int| 0 <= i < MAX_LENGTH ==> osc.sample@[i] is None,
{
    let osc = Osc {
        wave: Wave::Flat,
        sample: blank_sample(),
        edit_flag: false,
        sample_count: 1,
        next: 0,
        last: 0,
        max_amp: 0,
    };
    proof {
        assert(osc.sample@[0] is None);
    }
    osc
}

/// Why a table request was rejected before any slot was written.
#[derive(Clone, Copy, PartialEq, Eq, Structural, Debug)]
pub enum TableError {
    /// The requested length was 0 or above `MAX_LENGTH`.
    LengthOutOfRange,
    /// The requested peak amplitude was above `MAX_AMP`.
    AmplitudeOutOfRange,
}

/// The inputs every generator accepts: a non-zero length within capacity
/// and an amplitude within the hardware range.
pub open spec fn table_args_ok(length: usize, max_amp: u16) -> bool {
    &&& 1 <= length <= MAX_LENGTH
    &&& max_amp <= MAX_AMP
}

/// The per-sample amplitude step of the ramp and saw shapes.
pub open spec fn ramp_factor(length: usize, max_amp: u16) -> int {
    max_amp as int / length as int
}

/// The per-sample amplitude step of the triangle shape (twice as steep,
/// since the wave must rise and fall within `length` samples).
pub open spec fn triangle_factor(length: usize, max_amp: u16) -> int {
    (2 * max_amp as int) / length as int
}

/// Slot `i` of a ramp table of the given length: amplitude rising linearly
/// from 0, with the terminator forced at slot `length - 1`.  Defined for
/// `0 <= i < length`; the generator leaves later slots alone.
pub open spec fn ramp_slot(length: usize, max_amp: u16, i: int) -> Option<u16> {
    if i == length - 1 {
        Option::None
    } else {
        Option::Some((ramp_factor(length, max_amp) * i) as u16)
    }
}

/// Slot `i` of a saw table: amplitude falling linearly from the peak, the
/// terminator forced at slot `length - 1`, and every slot past the pattern
/// left at the generator's fill value 0.
pub open spec fn saw_slot(length: usize, max_amp: u16, i: int) -> Option<u16> {
    if i == length - 1 {
        Option::None
    } else if i < length {
        Option::Some((ramp_factor(length, max_amp) * (length - i)) as u16)
    } else {
        Option::Some(0u16)
    }
}

/// Slot `i` of a triangle table: amplitude rising over the first half,
/// then falling symmetrically back to 0 at the end of the pattern, with
/// the terminator forced at slot `length - 1`.
pub open spec fn triangle_slot(length: usize, max_amp: u16, i: int) -> Option<u16> {
    if i == length - 1 {
        Option::None
    } else if i < length / 2 {
        Option::Some((triangle_factor(length, max_amp) * i) as u16)
    } else if i < length {
        Option::Some((triangle_factor(length, max_amp) * (length - 1 - i)) as u16)
    } else {
        Option::Some(0u16)
    }
}

/// Slot `i` of a flat table: all zero but for the forced terminator.
pub open spec fn flat_slot(length: usize, i: int) -> Option<u16> {
    if i == length - 1 {
        Option::None
    } else {
        Option::Some(0u16)
    }
}

/// With `b >= 1` and `0 <= c <= b`, the scaled value `(a / b) * c` stays
/// within `[0, a]`: the slot values of the ramp and saw shapes never pass
/// the requested peak amplitude.
pub proof fn lemma_scaled_value_bound(a: int, b: int, c: int)
    requires
        0 <= a,
        1 <= b,
        0 <= c <= b,
    ensures
        0 <= (a / b) * c <= a,
{
    vstd::arithmetic::div_mod::lemma_div_pos_is_pos(a, b);
    vstd::arithmetic::mul::lemma_mul_nonnegative(a / b, c);
    // (a / b) * c <= (a / b) * b == a - a % b <= a
    vstd::arithmetic::mul::lemma_mul_inequality(c, b, a / b);
    vstd::arithmetic::div_mod::lemma_fundamental_div_mod(a, b);
    vstd::arithmetic::div_mod::lemma_mod_bound(a, b);
}

/// The triangle shape never passes the peak: with `k` at most `length / 2`,
/// `((2 * m) / length) * k <= m`.
pub proof fn lemma_triangle_value_bound(m: int, length: int, k: int)
    requires
        0 <= m,
        1 <= length,
        0 <= k <= length / 2,
    ensures
        0 <= ((2 * m) / length) * k <= m,
{
    let q = (2 * m) / length;
    vstd::arithmetic::div_mod::lemma_div_pos_is_pos(2 * m, length);
    vstd::arithmetic::mul::lemma_mul_nonnegative(q, k);
    // 2 * k <= length, so q * (2 * k) <= q * length <= 2 * m.
    vstd::arithmetic::div_mod::lemma_fundamental_div_mod(length, 2);
    vstd::arithmetic::div_mod::lemma_mod_bound(length, 2);
    assert(2 * k <= length);
    vstd::arithmetic::mul::lemma_mul_inequality(2 * k, length, q);
    vstd::arithmetic::div_mod::lemma_fundamental_div_mod(2 * m, length);
    vstd::arithmetic::div_mod::lemma_mod_bound(2 * m, length);
    vstd::arithmetic::mul::lemma_mul_is_associative(2, k, q);
    assert(q * (2 * k) == (2 * k) * q);
    assert((2 * k) * q <= length * q);
    assert(length * q <= 2 * m);
    assert(2 * (k * q) <= 2 * m);
}

/// Fill a ramp: `length` slots of linearly rising amplitude with the
/// terminator forced at slot `length - 1`; slots past `length` keep their
/// previous content.  Rejects a zero or over-long length and an amplitude
/// above the hardware range, before touching any slot.
pub fn ramp(length: usize, max_amp: u16, sample: &mut Sample) -> (r: Result<(), TableError>)
    requires
        old(sample)@.len() == MAX_LENGTH,
    ensures
        final(sample)@.len() == MAX_LENGTH,
        r is Ok <==> table_args_ok(length, max_amp),
        !(1 <= length <= MAX_LENGTH) ==> r == Result::<(), TableError>::Err(
            TableError::LengthOutOfRange,
        ) && final(sample)@ == old(sample)@,
        1 <= length <= MAX_LENGTH && max_amp > MAX_AMP ==> r == Result::<(), TableError>::Err(
            TableError::AmplitudeOutOfRange,
        ) && final(sample)@ == old(sample)@,
        r is Ok ==> forall|i: int|
            0 <= i < length ==> final(sample)@[i] == ramp_slot(length, max_amp, i),
        r is Ok ==> forall|i: int|
            length <= i < MAX_LENGTH ==> final(sample)@[i] == old(sample)@[i],
{
    if length == 0 || length > MAX_LENGTH {
        return Err(TableError::LengthOutOfRange);
    }
    if max_amp > MAX_AMP {
        return Err(TableError::AmplitudeOutOfRange);
    }
    let factor: u16 = max_amp / (length as u16);
    let mut i: usize = 0;
    while i < length
        invariant
            1 <= length <= MAX_LENGTH,
            max_amp <= MAX_AMP,
            i <= length,
            factor == ramp_factor(length, max_amp),
            sample@.len() == MAX_LENGTH,
            forall|j: int|
                0 <= j < i ==> sample@[j] == Option::Some(
                    (ramp_factor(length, max_amp) * j) as u16,
                ),
            forall|j: int| length <= j < MAX_LENGTH ==> sample@[j] == old(sample)@[j],
        decreases length - i,
    {
        proof {
            lemma_scaled_value_bound(max_amp as int, length as int, i as int);
        }
        let v: u16 = factor * (i as u16);
        sample.set(i, Some(v));
        i = i + 1;
    }
    sample.set(length - 1, None);
    Ok(())
}

/// Fill a saw: amplitude falling linearly from the peak, the terminator
/// forced at slot `length - 1`, and every remaining slot reset to 0.
/// Rejects out-of-range arguments like `ramp` does.
pub fn saw(length: usize, max_amp: u16, sample: &mut Sample) -> (r: Result<(), TableError>)
    requires
        old(sample)@.len() == MAX_LENGTH,
    ensures
        final(sample)@.len() == MAX_LENGTH,
        r is Ok <==> table_args_ok(length, max_amp),
        !(1 <= length <= MAX_LENGTH) ==> r == Result::<(), TableError>::Err(
            TableError::LengthOutOfRange,
        ) && final(sample)@ == old(sample)@,
        1 <= length <= MAX_LENGTH && max_amp > MAX_AMP ==> r == Result::<(), TableError>::Err(
            TableError::AmplitudeOutOfRange,
        ) && final(sample)@ == old(sample)@,
        r is Ok ==> forall|i: int|
            0 <= i < MAX_LENGTH ==> final(sample)@[i] == saw_slot(length, max_amp, i),
{
    if length == 0 || length > MAX_LENGTH {
        return Err(TableError::LengthOutOfRange);
    }
    if max_amp > MAX_AMP {
        return Err(TableError::AmplitudeOutOfRange);
    }
    let mut i: usize = 0;
    while i < MAX_LENGTH
        invariant
            i <= MAX_LENGTH,
            sample@.len() == MAX_LENGTH,
            forall|j: int| 0 <= j < i ==> sample@[j] == Option::Some(0u16),
        decreases MAX_LENGTH - i,
    {
        sample.set(i, Some(0));
        i = i + 1;
    }
    let factor: u16 = max_amp / (length as u16);
    let mut i: usize = 0;
    while i < length
        invariant
            1 <= length <= MAX_LENGTH,
            max_amp <= MAX_AMP,
            i <= length,
            factor == ramp_factor(length, max_amp),
            sample@.len() == MAX_LENGTH,
            forall|j: int|
                0 <= j < i ==> sample@[j] == Option::Some(
                    (ramp_factor(length, max_amp) * (length - j)) as u16,
                ),
            forall|j: int| length <= j < MAX_LENGTH ==> sample@[j] == Option::Some(0u16),
        decreases length - i,
    {
        proof {
            lemma_scaled_value_bound(max_amp as int, length as int, length - i as int);
        }
        let v: u16 = factor * ((length - i) as u16);
        sample.set(i, Some(v));
        i = i + 1;
    }
    sample.set(length - 1, None);
    Ok(())
}

/// Fill a triangle: amplitude rising over the first half of the pattern,
/// then falling symmetrically back to 0, with the terminator forced at
/// slot `length - 1` and every remaining slot reset to 0.  Rejects
/// out-of-range arguments like `ramp` does.
pub fn triangle(length: usize, max_amp: u16, sample: &mut Sample) -> (r: Result<(), TableError>)
    requires
        old(sample)@.len() == MAX_LENGTH,
    ensures
        final(sample)@.len() == MAX_LENGTH,
        r is Ok <==> table_args_ok(length, max_amp),
        !(1 <= length <= MAX_LENGTH) ==> r == Result::<(), TableError>::Err(
            TableError::LengthOutOfRange,
        ) && final(sample)@ == old(sample)@,
        1 <= length <= MAX_LENGTH && max_amp > MAX_AMP ==> r == Result::<(), TableError>::Err(
            TableError::AmplitudeOutOfRange,
        ) && final(sample)@ == old(sample)@,
        r is Ok ==> forall|i: int|
            0 <= i < MAX_LENGTH ==> final(sample)@[i] == triangle_slot(length, max_amp, i),
{
    if length == 0 || length > MAX_LENGTH {
        return Err(TableError::LengthOutOfRange);
    }
    if max_amp > MAX_AMP {
        return Err(TableError::AmplitudeOutOfRange);
    }
    let mut i: usize = 0;
    while i < MAX_LENGTH
        invariant
            i <= MAX_LENGTH,
            sample@.len() == MAX_LENGTH,
            forall|j: int| 0 <= j < i ==> sample@[j] == Option::Some(0u16),
        decreases MAX_LENGTH - i,
    {
        sample.set(i, Some(0));
        i = i + 1;
    }
    let factor: u16 = (2 * max_amp) / (length as u16);
    let half: usize = length / 2;
    let mut i: usize = 0;
    while i < half
        invariant
            1 <= length <= MAX_LENGTH,
            max_amp <= MAX_AMP,
            half == length / 2,
            i <= half,
            factor == triangle_factor(length, max_amp),
            sample@.len() == MAX_LENGTH,
            forall|j: int|
                0 <= j < i ==> sample@[j] == Option::Some(
                    (triangle_factor(length, max_amp) * j) as u16,
                ),
            forall|j: int| i <= j < MAX_LENGTH ==> sample@[j] == Option::Some(0u16),
        decreases half - i,
    {
        proof {
            lemma_triangle_value_bound(max_amp as int, length as int, i as int);
        }
        let v: u16 = factor * (i as u16);
        sample.set(i, Some(v));
        i = i + 1;
    }
    let mut i: usize = half;
    while i < length
        invariant
            1 <= length <= MAX_LENGTH,
            max_amp <= MAX_AMP,
            half == length / 2,
            half <= i <= length,
            factor == triangle_factor(length, max_amp),
            sample@.len() == MAX_LENGTH,
            forall|j: int|
                0 <= j < half ==> sample@[j] == Option::Some(
                    (triangle_factor(length, max_amp) * j) as u16,
                ),
            forall|j: int|
                half <= j < i ==> sample@[j] == Option::Some(
                    (triangle_factor(length, max_amp) * (length - 1 - j)) as u16,
                ),
            forall|j: int| i <= j < MAX_LENGTH ==> sample@[j] == Option::Some(0u16),
        decreases length - i,
    {
        proof {
            lemma_triangle_value_bound(max_amp as int, length as int, length - 1 - i as int);
        }
        let v: u16 = factor * ((length - 1 - i) as u16);
        sample.set(i, Some(v));
        i = i + 1;
    }
    sample.set(length - 1, None);
    Ok(())
}

/// Fill a flat table: all zero but for the terminator forced at slot
/// `length - 1`.  Rejects a zero or over-long length.
pub fn flat(length: usize, sample: &mut Sample) -> (r: Result<(), TableError>)
    requires
        old(sample)@.len() == MAX_LENGTH,
    ensures
        final(sample)@.len() == MAX_LENGTH,
        r is Ok <==> 1 <= length <= MAX_LENGTH,
        r is Err ==> r == Result::<(), TableError>::Err(TableError::LengthOutOfRange)
            && final(sample)@ == old(sample)@,
        r is Ok ==> forall|i: int| 0 <= i < MAX_LENGTH ==> final(sample)@[i] == flat_slot(length, i),
{
    if length == 0 || length > MAX_LENGTH {
        return Err(TableError::LengthOutOfRange);
    }
    let mut i: usize = 0;
    while i < MAX_LENGTH
        invariant
            i <= MAX_LENGTH,
            sample@.len() == MAX_LENGTH,
            forall|j: int| 0 <= j < i ==> sample@[j] == Option::Some(0u16),
        decreases MAX_LENGTH - i,
    {
        sample.set(i, Some(0));
        i = i + 1;
    }
    sample.set(length - 1, None);
    Ok(())
}

/// Law: for every valid `length` and `max_amp`, the ramp table the
/// generator writes holds a real sample in every slot before the forced
/// terminator, those samples never decrease, and slot `length - 1` is the
/// terminator.
pub proof fn lemma_ramp_law(length: usize, max_amp: u16)
    requires
        table_args_ok(length, max_amp),
    ensures
        forall|i: int| 0 <= i < length - 1 ==> #[trigger] ramp_slot(length, max_amp, i) is Some,
        ramp_slot(length, max_amp, length - 1) is None,
        forall|i: int, j: int|
            #![trigger ramp_slot(length, max_amp, i), ramp_slot(length, max_amp, j)]
            0 <= i <= j < length - 1 ==> ramp_slot(length, max_amp, i).unwrap() <= ramp_slot(
                length,
                max_amp,
                j,
            ).unwrap(),
{
    assert forall|i: int, j: int| 0 <= i <= j < length - 1 implies ramp_slot(
        length,
        max_amp,
        i,
    ).unwrap() <= ramp_slot(length, max_amp, j).unwrap() by {
        lemma_scaled_value_bound(max_amp as int, length as int, i);
        lemma_scaled_value_bound(max_amp as int, length as int, j);
        vstd::arithmetic::mul::lemma_mul_inequality(i, j, ramp_factor(length, max_amp));
    }
}

/// The oscillator after `n` playback steps.
pub open spec fn osc_run_state(o: Osc, n: nat) -> Osc
    decreases n,
{
    if n == 0 {
        o
    } else {
        osc_run_state(osc_step(o), (n - 1) as nat)
    }
}

/// The values `n` playback steps report, in order.
pub open spec fn osc_run_outs(o: Osc, n: nat) -> Seq<u16>
    decreases n,
{
    if n == 0 {
        Seq::empty()
    } else {
        seq![osc_step_out(o)] + osc_run_outs(osc_step(o), (n - 1) as nat)
    }
}

/// Slots `0 .. len` of the table hold real samples and slot `len` is the
/// terminator.
pub open spec fn filled_prefix(s: Seq<Option<u16>>, len: int) -> bool {
    &&& 0 <= len < s.len()
    &&& forall|i: int| 0 <= i < len ==> s[i] is Some
    &&& s[len] is None
}

proof fn lemma_playback_from(o: Osc, len: int, k: int)
    requires
        filled_prefix(o.sample@, len),
        o.sample@.len() <= usize::MAX,
        1 <= len,
        o.next == k,
        0 <= k <= len,
        k == len ==> o.last == o.sample@[len - 1].unwrap(),
    ensures
        osc_run_outs(o, (len - k + 1) as nat).len() == len - k + 1,
        forall|j: int|
            0 <= j < len - k ==> #[trigger] osc_run_outs(o, (len - k + 1) as nat)[j] == o.sample@[k
                + j].unwrap(),
        osc_run_outs(o, (len - k + 1) as nat)[len - k] == o.sample@[len - 1].unwrap(),
        osc_run_state(o, (len - k + 1) as nat).next == 0,
        osc_run_state(o, (len - k + 1) as nat).sample@ == o.sample@,
        osc_run_state(o, (len - k + 1) as nat).last == o.sample@[len - 1].unwrap(),
    decreases len - k,
{
    let n = (len - k + 1) as nat;
    if k == len {
        assert(o.sample@[k] is None);
        assert(osc_run_outs(osc_step(o), 0) =~= Seq::<u16>::empty());
        assert(osc_run_outs(o, 1) =~= seq![o.last]);
        assert(osc_run_state(osc_step(o), 0) == osc_step(o));
        assert(osc_run_state(o, 1) == osc_step(o));
    } else {
        assert(o.sample@[k] is Some);
        let o2 = osc_step(o);
        lemma_playback_from(o2, len, k + 1);
        assert(osc_run_outs(o, n) == seq![osc_step_out(o)] + osc_run_outs(o2, (n - 1) as nat));
        assert forall|j: int| 0 <= j < len - k implies osc_run_outs(o, n)[j] == o.sample@[k
            + j].unwrap() by {
            if j > 0 {
                assert(osc_run_outs(o, n)[j] == osc_run_outs(o2, (n - 1) as nat)[j - 1]);
            }
        }
    }
}

/// Law: playback over a table holding `len` real samples, started at
/// slot 0, reports those `len` samples in order, then repeats the last
/// one once while the cursor wraps back to slot 0; the table itself is
/// left unchanged, so the cycle repeats identically.
pub proof fn lemma_playback_cycle(o: Osc, len: int)
    requires
        filled_prefix(o.sample@, len),
        o.sample@.len() <= usize::MAX,
        1 <= len,
        o.next == 0,
    ensures
        osc_run_outs(o, (len + 1) as nat).len() == len + 1,
        forall|j: int|
            0 <= j < len ==> #[trigger] osc_run_outs(o, (len + 1) as nat)[j]
                == o.sample@[j].unwrap(),
        osc_run_outs(o, (len + 1) as nat)[len] == o.sample@[len - 1].unwrap(),
        osc_run_state(o, (len + 1) as nat).next == 0,
        osc_run_state(o, (len + 1) as nat).sample@ == o.sample@,
        osc_run_state(o, (len + 1) as nat).last == o.sample@[len - 1].unwrap(),
{
    lemma_playback_from(o, len, 0);
}

/// The table that regenerating an oscillator produces: the wave's own slot
/// law over the pattern, with `ramp` alone leaving slots past the pattern
/// at their previous content.
pub open spec fn regenerated_table(
    wave: Wave,
    length: usize,
    max_amp: u16,
    prev: Seq<Option<u16>>,
) -> Seq<Option<u16>> {
    Seq::new(
        prev.len(),
        |i: int|
            match wave {
                Wave::Ramp => if i < length {
                    ramp_slot(length, max_amp, i)
                } else {
                    prev[i]
                },
                Wave::Saw => saw_slot(length, max_amp, i),
                Wave::Triangle => triangle_slot(length, max_amp, i),
                Wave::Flat => flat_slot(length, i),
            },
    )
}

/// The decoupled consumer of the edit flag: when an oscillator's
/// parameters changed, rebuild its table from `wave`, `sample_count` and
/// `max_amp`, clear the flag, and rewind the cursor; otherwise leave the
/// oscillator untouched.
pub fn reset_osc(osc: &mut Osc)
    requires
        old(osc).wf(),
    ensures
        final(osc).wf(),
        !old(osc).edit_flag ==> *final(osc) == *old(osc),
        old(osc).edit_flag ==> {
            &&& final(osc).wave == old(osc).wave
            &&& final(osc).sample_count == old(osc).sample_count
            &&& final(osc).max_amp == old(osc).max_amp
            &&& final(osc).last == old(osc).last
            &&& final(osc).edit_flag == false
            &&& final(osc).next == 0
            &&& final(osc).sample@ == regenerated_table(
                old(osc).wave,
                old(osc).sample_count,
                old(osc).max_amp,
                old(osc).sample@,
            )
        },
{
    if !osc.edit_flag {
        return ;
    }
    let count = osc.sample_count;
    let amp = osc.max_amp;
    let r = match osc.wave {
        Wave::Ramp => ramp(count, amp, &mut osc.sample),
        Wave::Saw => saw(count, amp, &mut osc.sample),
        Wave::Triangle => triangle(count, amp, &mut osc.sample),
        Wave::Flat => flat(count, &mut osc.sample),
    };
    match r {
        Ok(_) => {
        },
        Err(_) => {
            // Unreachable: a well-formed oscillator's length and amplitude
            // are within every generator's accepted range.
            proof {
                assert(false);
            }
        },
    }
    osc.edit_flag = false;
    osc.next = 0;
    proof {
        let cnt = count as int;
        assert(ramp_slot(count, amp, cnt - 1) is None);
        assert(saw_slot(count, amp, cnt - 1) is None);
        assert(triangle_slot(count, amp, cnt - 1) is None);
        assert(flat_slot(count, cnt - 1) is None);
        assert(osc.sample@[cnt - 1] is None);
        assert(osc.sample@ =~= regenerated_table(
            old(osc).wave,
            old(osc).sample_count,
            old(osc).max_amp,
            old(osc).sample@,
        ));
    }
}

/// The aggregate of the device's four oscillators, and the index of the
/// one the active encoder is currently tuning.
pub struct OscState {
    pub osc_1: Osc,
    pub osc_2: Osc,
    pub osc_3: Osc,
    pub osc_4: Osc,
    pub edit_index: usize,
}

impl OscState {
    /// Every oscillator is well formed and the edit index selects one of
    /// the four.
    pub open spec fn wf(self) -> bool {
        &&& self.osc_1.wf()
        &&& self.osc_2.wf()
        &&& self.osc_3.wf()
        &&& self.osc_4.wf()
        &&& self.edit_index < 4
    }

    /// The oscillator at position `i`, counting from 0.
    pub open spec fn osc_at(self, i: int) -> Osc {
        if i == 0 {
            self.osc_1
        } else if i == 1 {
            self.osc_2
        } else if i == 2 {
            self.osc_3
        } else {
            self.osc_4
        }
    }

    /// This aggregate with the oscillator at position `i` replaced.
    pub open spec fn with_osc(self, i: int, o: Osc) -> OscState {
        if i == 0 {
            OscState { osc_1: o, ..self }
        } else if i == 1 {
            OscState { osc_2: o, ..self }
        } else if i == 2 {
            OscState { osc_3: o, ..self }
        } else {
            OscState { osc_4: o, ..self }
        }
    }
}

/// A fresh aggregate: four silent oscillators, tuning the first.
pub fn new_osc_state() -> (state: OscState)
    ensures
        state.wf(),
        state.edit_index == 0,
        forall|i: int| 0 <= i < 4 ==> #[trigger] state.osc_at(i).wf(),
        forall|i: int| 0 <= i < 4 ==> #[trigger] state.osc_at(i).sample_count == 1,
        forall|i: int| 0 <= i < 4 ==> #[trigger] state.osc_at(i).edit_flag == false,
{
    OscState {
        osc_1: new_osc(),
        osc_2: new_osc(),
        osc_3: new_osc(),
        osc_4: new_osc(),
        edit_index: 0,
    }
}

} // verus!
