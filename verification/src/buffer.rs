//! Fixed-capacity circular store of stereo frames.
//!
//! A `SampleBuffer` holds the most recently pushed frames in a ring of
//! fixed capacity.  Its mathematical model is the full history of pushed
//! frames, kept as a ghost sequence: every slot of the ring is pinned to
//! the latest history entry that maps onto it, and a cold slot is silence.
//! `push` overwrites the oldest frames unconditionally, so a producer is
//! never blocked; `iter` reads a decimated window walking backward from
//! the newest frame and synthesizes silence for frames never written.

use vstd::prelude::*;
use vstd::arithmetic::div_mod::{
    lemma_fundamental_div_mod, lemma_fundamental_div_mod_converse_div,
    lemma_fundamental_div_mod_converse_mod, lemma_mod_division_less_than_divisor,
    lemma_small_mod,
};
use vstd::arithmetic::mul::{lemma_mul_inequality, lemma_mul_nonnegative};

use crate::{silence, silent_frame, Error, StereoSample};

verus! {

/// The frame a ring slot holds, as a function of the push history: the
/// latest history entry congruent to the slot, or silence for a slot that
/// was never written.
pub open spec fn slot_spec(h: Seq<StereoSample>, c: int, s: int) -> StereoSample
    recommends
        c >= 1,
        0 <= s < c,
{
    if s < h.len() {
        h[s + c * ((h.len() - 1 - s) / c)]
    } else {
        silence()
    }
}

/// Fixed-capacity circular store of stereo frames with one producer and
/// any number of reading consumers.
pub struct SampleBuffer {
    data: Vec<StereoSample>,
    pos: usize,
    written: usize,
    rate: usize,
    hist: Ghost<Seq<StereoSample>>,
}

impl SampleBuffer {
    /// Capacity in frames, fixed at construction.
    pub closed spec fn cap(self) -> int {
        self.data@.len() as int
    }

    /// Sample rate the buffer was constructed with.
    pub closed spec fn rate_spec(self) -> int {
        self.rate as int
    }

    /// Every frame ever pushed, oldest first.
    pub closed spec fn history(self) -> Seq<StereoSample> {
        self.hist@
    }

    /// The buffer's invariant: the write cursor is the history length
    /// modulo the capacity, the count of live frames saturates at the
    /// capacity, and every ring slot holds exactly the frame
    /// [`slot_spec`] assigns it.
    pub closed spec fn wf(self) -> bool {
        let c = self.data@.len() as int;
        let l = self.hist@.len() as int;
        &&& c >= 1
        &&& self.pos < c
        &&& self.pos as int == l % c
        &&& self.written as int == if l <= c {
            l
        } else {
            c
        }
        &&& forall|s: int| 0 <= s < c ==> self.data@[s] == slot_spec(self.hist@, c, s)
    }

    /// The frame `k` raw steps behind the newest one, with ring aliasing:
    /// walking back wraps after `cap` steps, and a slot never written
    /// reads as silence.
    pub open spec fn nth_back(self, k: int) -> StereoSample
        recommends
            self.wf(),
            k >= 0,
    {
        let c = self.cap();
        let l = self.history().len() as int;
        if k % c < l {
            self.history()[l - 1 - k % c]
        } else {
            silence()
        }
    }

    /// The window `iter` returns: `n` frames, every `d`-th raw frame
    /// walking backward from the newest, presented oldest first.
    pub open spec fn window_view(self, n: int, d: int) -> Seq<StereoSample>
        recommends
            self.wf(),
            d >= 1,
    {
        Seq::new(n as nat, |j: int| self.nth_back((n - 1 - j) * d))
    }

    /// Allocate a buffer of `size` silent frames.  A zero capacity is a
    /// configuration error.
    pub fn new(size: usize, rate: usize) -> (r: Result<SampleBuffer, Error>)
        ensures
            match r {
                Ok(b) => {
                    &&& size >= 1
                    &&& b.wf()
                    &&& b.cap() == size
                    &&& b.rate_spec() == rate
                    &&& b.history() == Seq::<StereoSample>::empty()
                },
                Err(e) => size == 0 && e == Error::ConfigurationError,
            },
    {
        if size == 0 {
            return Err(Error::ConfigurationError);
        }
        let mut data: Vec<StereoSample> = Vec::new();
        while data.len() < size
            invariant
                data@.len() <= size,
                forall|i: int| 0 <= i < data@.len() ==> data@[i] == silence(),
            decreases size - data@.len(),
        {
            data.push(silent_frame());
        }
        let b = SampleBuffer { data, pos: 0, written: 0, rate, hist: Ghost(Seq::empty()) };
        proof {
            lemma_small_mod(0, size as nat);
            assert forall|s: int| 0 <= s < b.data@.len() implies b.data@[s] == slot_spec(
                b.hist@,
                b.data@.len() as int,
                s,
            ) by {
                assert(b.data@[s] == silence());
            }
        }
        Ok(b)
    }

    /// Capacity in frames.
    pub fn capacity(&self) -> (c: usize)
        ensures
            c as int == self.cap(),
    {
        self.data.len()
    }

    /// Sample rate the buffer was constructed with.
    pub fn sample_rate(&self) -> (r: usize)
        ensures
            r as int == self.rate_spec(),
    {
        self.rate
    }

    /// Append one frame, overwriting the oldest when the ring is full.
    fn push_one(&mut self, f: StereoSample)
        requires
            old(self).wf(),
        ensures
            final(self).wf(),
            final(self).history() == old(self).history().push(f),
            final(self).cap() == old(self).cap(),
            final(self).rate_spec() == old(self).rate_spec(),
    {
        let ghost l = self.hist@.len() as int;
        let ghost c = self.data@.len() as int;
        let ghost h_old = self.hist@;
        let p = self.pos;
        self.data[p] = f;
        self.hist = Ghost(self.hist@.push(f));
        let n = self.data.len();
        proof {
            assert(p < n);
        }
        if p + 1 == n {
            self.pos = 0;
        } else {
            self.pos = p + 1;
        }
        if self.written < n {
            self.written = self.written + 1;
        }
        proof {
            let h_new = self.hist@;
            let q = l / c;
            let pp = p as int;
            lemma_fundamental_div_mod(l, c);
            assert(l == c * q + pp);
            // the cursor advances to (l + 1) % c
            if p + 1 == self.data.len() {
                assert((q + 1) * c == c * q + c) by (nonlinear_arith);
                lemma_fundamental_div_mod_converse_mod(l + 1, c, q + 1, 0);
            } else {
                assert(q * c == c * q) by (nonlinear_arith);
                lemma_fundamental_div_mod_converse_mod(l + 1, c, q, pp + 1);
            }
            // each slot still holds what slot_spec assigns it
            assert forall|s: int| 0 <= s < c implies self.data@[s] == slot_spec(h_new, c, s) by {
                if s == pp {
                    // the overwritten slot now holds the newest frame
                    assert(l - s == q * c + 0) by (nonlinear_arith)
                        requires
                            l == c * q + s,
                    ;
                    lemma_fundamental_div_mod_converse_div(l - s, c, q, 0);
                    assert(s + c * ((l - s) / c) == l);
                } else if s < l {
                    // an untouched live slot: the latest entry congruent to
                    // it is unchanged, because only index l was added and
                    // l is congruent to p, not to s
                    let q2 = (l - 1 - s) / c;
                    let r2 = (l - 1 - s) % c;
                    lemma_fundamental_div_mod(l - 1 - s, c);
                    lemma_mod_division_less_than_divisor(l - 1 - s, c);
                    lemma_div_pos(l - 1 - s, c);
                    lemma_mul_nonnegative(c, q2);
                    if r2 + 1 == c {
                        assert(l == (q2 + 1) * c + s) by (nonlinear_arith)
                            requires
                                l - 1 - s == c * q2 + r2,
                                r2 + 1 == c,
                        ;
                        lemma_fundamental_div_mod_converse_mod(l, c, q2 + 1, s);
                        assert(false);
                    }
                    assert(l - s == q2 * c + (r2 + 1)) by (nonlinear_arith)
                        requires
                            l - 1 - s == c * q2 + r2,
                    ;
                    lemma_fundamental_div_mod_converse_div(l - s, c, q2, r2 + 1);
                    assert(slot_spec(h_new, c, s) == h_new[s + c * q2]);
                    assert(s + c * q2 <= l - 1);
                    assert(h_new[s + c * q2] == h_old[s + c * q2]);
                } else {
                    // a cold slot stays cold: s is not the cursor, so the
                    // new entry did not land on it
                    if l < c {
                        lemma_small_mod(l as nat, c as nat);
                        assert(s >= l + 1);
                    }
                }
            }
        }
    }

    /// Append frames in order; once the cursor wraps, the oldest frames
    /// are overwritten unconditionally.  Bounded work per frame, no
    /// blocking on consumers.
    pub fn push(&mut self, frames: &[StereoSample])
        requires
            old(self).wf(),
        ensures
            final(self).wf(),
            final(self).history() == old(self).history() + frames@,
            final(self).cap() == old(self).cap(),
            final(self).rate_spec() == old(self).rate_spec(),
    {
        let mut i: usize = 0;
        while i < frames.len()
            invariant
                i <= frames@.len(),
                self.wf(),
                self.history() == old(self).history() + frames@.take(i as int),
                self.cap() == old(self).cap(),
                self.rate_spec() == old(self).rate_spec(),
            decreases frames@.len() - i,
        {
            self.push_one(frames[i]);
            proof {
                assert(frames@.take(i as int).push(frames@[i as int]) =~= frames@.take(
                    i as int + 1,
                ));
            }
            i = i + 1;
        }
        proof {
            assert(frames@.take(frames@.len() as int) =~= frames@);
        }
    }

    /// Produce `window_length` frames: every `downsample`-th raw frame,
    /// walking backward from the newest, presented oldest to newest.  A
    /// prefix that was never written reads as silence, so analysis can
    /// start on a cold buffer.
    pub fn iter(&self, window_length: usize, downsample: usize) -> (r: Vec<StereoSample>)
        requires
            self.wf(),
            downsample >= 1,
            window_length * downsample <= usize::MAX,
        ensures
            r@ == self.window_view(window_length as int, downsample as int),
            r@.len() == window_length,
    {
        let ghost l = self.hist@.len() as int;
        let ghost c_g = self.data@.len() as int;
        let c = self.data.len();
        let mut r: Vec<StereoSample> = Vec::new();
        let mut j: usize = 0;
        while j < window_length
            invariant
                self.wf(),
                l == self.hist@.len() as int,
                c == self.data@.len(),
                c_g == c as int,
                downsample >= 1,
                window_length * downsample <= usize::MAX,
                j <= window_length,
                r@.len() == j,
                forall|jj: int|
                    0 <= jj < j ==> r@[jj] == self.nth_back(
                        (window_length - 1 - jj) * (downsample as int),
                    ),
            decreases window_length - j,
        {
            proof {
                lemma_mul_inequality(
                    window_length - 1 - j as int,
                    window_length as int,
                    downsample as int,
                );
                lemma_mul_nonnegative(window_length - 1 - j as int, downsample as int);
            }
            let steps = (window_length - 1 - j) * downsample;
            let k = steps % c;
            proof {
                lemma_mod_division_less_than_divisor(steps as int, c as int);
            }
            let v: StereoSample;
            if k < self.written {
                let s = if k < self.pos {
                    self.pos - 1 - k
                } else {
                    c - 1 - (k - self.pos)
                };
                v = self.data[s];
                proof {
                    let m = l - 1 - k;
                    let q = l / c_g;
                    lemma_fundamental_div_mod(l, c_g);
                    assert(l == c_g * q + self.pos);
                    if k < self.pos {
                        assert(m == q * c_g + (s as int)) by (nonlinear_arith)
                            requires
                                l == c_g * q + (s as int) + 1 + (k as int),
                                m == l - 1 - k,
                        ;
                        lemma_fundamental_div_mod_converse_mod(m, c_g, q, s as int);
                    } else {
                        assert(m == (q - 1) * c_g + (s as int)) by (nonlinear_arith)
                            requires
                                l - 1 - k == c_g * q - c_g + (s as int),
                                m == l - 1 - k,
                        ;
                        lemma_fundamental_div_mod_converse_mod(m, c_g, q - 1, s as int);
                    }
                    assert(s as int == m % c_g);
                    lemma_back_slot(l, c_g, k as int);
                    assert(self.data@[s as int] == slot_spec(self.hist@, c_g, s as int));
                    assert(v == self.hist@[m]);
                    assert(v == self.nth_back(steps as int));
                }
            } else {
                v = silent_frame();
                proof {
                    if l > c_g {
                        assert(false);
                    }
                    assert(v == self.nth_back(steps as int));
                }
            }
            r.push(v);
            j = j + 1;
        }
        proof {
            assert(r@ =~= self.window_view(window_length as int, downsample as int));
        }
        r
    }
}

/// For a nonnegative numerator and positive denominator the quotient is
/// nonnegative.
proof fn lemma_div_pos(x: int, d: int)
    requires
        x >= 0,
        d >= 1,
    ensures
        x / d >= 0,
{
    vstd::arithmetic::div_mod::lemma_div_pos_is_pos(x, d);
}

/// Reading `k` raw steps back lands on ring slot `(l - 1 - k) % c`, and
/// that slot's latest history entry is exactly `l - 1 - k`.
proof fn lemma_back_slot(l: int, c: int, k: int)
    requires
        c >= 1,
        0 <= k < c,
        k < l,
    ensures
        ({
            let s = (l - 1 - k) % c;
            &&& 0 <= s < c
            &&& s < l
            &&& s + c * ((l - 1 - s) / c) == l - 1 - k
        }),
{
    let m = l - 1 - k;
    let s = m % c;
    let q = m / c;
    lemma_fundamental_div_mod(m, c);
    lemma_mod_division_less_than_divisor(m, c);
    lemma_div_pos(m, c);
    lemma_mul_nonnegative(c, q);
    assert(s <= m);
    assert(l - 1 - s == q * c + k) by (nonlinear_arith)
        requires
            m == c * q + s,
            m == l - 1 - k,
    ;
    lemma_fundamental_div_mod_converse_div(l - 1 - s, c, q, k);
}

/// Once at least `cap` frames were pushed, the window of length `cap` at
/// decimation one is exactly the last `cap` frames of the history, oldest
/// to newest: the buffer holds the most recent `cap` frames and nothing
/// else.
pub proof fn lemma_full_window_is_recent_history(b: SampleBuffer)
    requires
        b.wf(),
        b.history().len() >= b.cap(),
    ensures
        b.window_view(b.cap(), 1) == b.history().subrange(
            b.history().len() - b.cap(),
            b.history().len() as int,
        ),
{
    let c = b.cap();
    let l = b.history().len() as int;
    assert forall|j: int| 0 <= j < c implies b.window_view(c, 1)[j] == b.history()[l - c + j] by {
        let k = (c - 1 - j) * 1;
        assert(k == c - 1 - j);
        lemma_small_mod((c - 1 - j) as nat, c as nat);
        assert(b.nth_back(k) == b.history()[l - 1 - (c - 1 - j)]);
    }
    assert(b.window_view(c, 1) =~= b.history().subrange(l - c, l));
}

/// A buffer that has never been pushed to yields a window of pure
/// silence, for any window length and any decimation.
pub proof fn lemma_cold_window_is_silence(b: SampleBuffer, n: int, d: int)
    requires
        b.wf(),
        b.history().len() == 0,
        n >= 0,
        d >= 1,
    ensures
        forall|j: int| 0 <= j < n ==> b.window_view(n, d)[j] == silence(),
{
    assert forall|j: int| 0 <= j < n implies b.window_view(n, d)[j] == silence() by {
        let k = (n - 1 - j) * d;
        lemma_mul_nonnegative(n - 1 - j, d);
        lemma_mod_division_less_than_divisor(k, b.cap());
    }
}

} // verus!
