//! The integer side of sample-rate conversion: the rational ratio of two
//! rates in lowest terms, and which buffered input frames each output frame
//! is made from, chunk after chunk.

use vstd::prelude::*;
use vstd::arithmetic::div_mod::{lemma_fundamental_div_mod, lemma_fundamental_div_mod_converse, lemma_mod_pos_bound};

verus! {

/// Whether `d` divides `n`.
pub open spec fn divides(d: nat, n: nat) -> bool {
    exists|k: nat| #[trigger] (d * k) == n
}

/// Euclid's greatest common divisor.
pub open spec fn gcd_of(a: nat, b: nat) -> nat
    decreases b,
{
    if b == 0 {
        a
    } else {
        gcd_of(b, a % b)
    }
}

/// The greatest common divisor of `a` and `b`; `gcd(a, 0) == a`.
pub fn gcd(a: u32, b: u32) -> (r: u32)
    ensures
        r == gcd_of(a as nat, b as nat),
    decreases b,
{
    if b == 0 {
        a
    } else {
        gcd(b, a % b)
    }
}

proof fn lemma_divides_mod(d: nat, a: nat, b: nat)
    requires
        b > 0,
        divides(d, a),
        divides(d, b),
    ensures
        divides(d, a % b),
{
    let ka = choose|k: nat| #[trigger] (d * k) == a;
    let kb = choose|k: nat| #[trigger] (d * k) == b;
    let q = (a / b) as int;
    let r = (a % b) as int;
    lemma_fundamental_div_mod(a as int, b as int);
    assert(d > 0) by (nonlinear_arith)
        requires
            d * kb == b,
            b > 0,
    ;
    let k: int = ka - kb * q;
    assert(d * k == r) by (nonlinear_arith)
        requires
            a == b * q + r,
            d * ka == a,
            d * kb == b,
            k == ka - kb * q,
    ;
    assert(k >= 0) by (nonlinear_arith)
        requires
            d > 0,
            d * k == r,
            r >= 0,
    ;
    assert((d * (k as nat)) == a % b);
}

/// The divisor Euclid finds divides both numbers, and every common
/// divisor divides it: it is the greatest.
pub proof fn lemma_gcd(a: nat, b: nat)
    ensures
        divides(gcd_of(a, b), a),
        divides(gcd_of(a, b), b),
        forall|d: nat| divides(d, a) && divides(d, b) ==> divides(d, #[trigger] gcd_of(a, b)),
    decreases b,
{
    if b == 0 {
        assert(gcd_of(a, b) * 1 == a);
        assert(gcd_of(a, b) * 0 == b);
    } else {
        lemma_gcd(b, a % b);
        let g = gcd_of(a, b);
        let kb = choose|k: nat| #[trigger] (g * k) == b;
        let kr = choose|k: nat| #[trigger] (g * k) == a % b;
        let q = a / b;
        lemma_fundamental_div_mod(a as int, b as int);
        assert(g * (kb * q + kr) == a) by (nonlinear_arith)
            requires
                a == b * q + a % b,
                g * kb == b,
                g * kr == a % b,
        ;
        assert(divides(g, a));
        assert forall|d: nat| divides(d, a) && divides(d, b) implies divides(d, #[trigger] gcd_of(a, b)) by {
            lemma_divides_mod(d, a, b);
        }
    }
}

/// The rational ratio that turns `from_hz` into `to_hz`, in lowest terms,
/// as `(up, down)`: `None` when the rates agree or a converter cannot work
/// (a rate or the channel count is zero).
pub fn rate_ratio(from_hz: u32, to_hz: u32, channels: usize) -> (r: Option<(usize, usize)>)
    ensures
        (from_hz == to_hz || from_hz == 0 || to_hz == 0 || channels == 0) ==> r is None,
        !(from_hz == to_hz || from_hz == 0 || to_hz == 0 || channels == 0) ==> (r matches Some((up, down)) && {
            let g = gcd_of(from_hz as nat, to_hz as nat);
            &&& g > 0
            &&& up * g == to_hz
            &&& down * g == from_hz
        }),
{
    if from_hz == to_hz || from_hz == 0 || to_hz == 0 || channels == 0 {
        return None;
    }
    let divisor = gcd(from_hz, to_hz);
    proof {
        lemma_gcd(from_hz as nat, to_hz as nat);
    }
    assert(divisor > 0) by {
        if divisor == 0 {
            let k = choose|k: nat| #[trigger] (divisor as nat * k) == from_hz as nat;
            assert(divisor as nat * k == 0) by (nonlinear_arith)
                requires
                    divisor == 0,
            ;
        }
    }
    proof {
        let ka = choose|k: nat| #[trigger] (divisor as nat * k) == from_hz as nat;
        let kb = choose|k: nat| #[trigger] (divisor as nat * k) == to_hz as nat;
        assert(from_hz / divisor == ka && from_hz % divisor == 0) by (nonlinear_arith)
            requires
                divisor as nat * ka == from_hz as nat,
                divisor > 0,
        ;
        assert(to_hz / divisor == kb && to_hz % divisor == 0) by (nonlinear_arith)
            requires
                divisor as nat * kb == to_hz as nat,
                divisor > 0,
        ;
    }
    let up = (to_hz / divisor) as usize;
    let down = (from_hz / divisor) as usize;
    assert(up * divisor == to_hz) by (nonlinear_arith)
        requires
            up == to_hz / divisor,
            to_hz % divisor == 0,
            divisor > 0,
    ;
    assert(down * divisor == from_hz) by (nonlinear_arith)
        requires
            down == from_hz / divisor,
            from_hz % divisor == 0,
            divisor > 0,
    ;
    Some((up, down))
}

/// Input frames each output frame is made from.
pub const TAPS: usize = 64;

/// Half a window.
pub const HALF: usize = 32;

/// The silent frames the input buffer starts with, so that the first output
/// frame has a full window behind it.
pub const PRIMED_FRAMES: usize = 31;

/// The first input frame, counted from the start of the stream (the primed
/// silence included), of the window of output frame `k`.
pub open spec fn frame_of(k: nat, up: nat, down: nat) -> nat {
    (k * down) / up
}

/// The filter phase output frame `k` is weighed with: its position between
/// two input frames, in steps of `1 / up`.
pub open spec fn phase_of(k: nat, up: nat, down: nat) -> nat {
    (k * down) % up
}

/// Whether output frame `k` can be made once `total` frames of the stream
/// (the primed silence included) have arrived: its whole window is in.
pub open spec fn ready(k: nat, up: nat, down: nat, total: nat) -> bool {
    frame_of(k, up, down) + TAPS - 1 < total
}

/// One output frame further on, the position has moved `down` steps of
/// `1 / up`: the quotient and remainder carry over as in long division,
/// and the window moves on by at most `down` frames.
proof fn lemma_step(k: nat, up: nat, down: nat)
    requires
        up > 0,
    ensures
        frame_of(k + 1, up, down) == frame_of(k, up, down) + (phase_of(k, up, down) + down) / up,
        phase_of(k + 1, up, down) == (phase_of(k, up, down) + down) % up,
        (phase_of(k, up, down) + down) / up <= down,
{
    let x = k * down;
    let q = x / up;
    let r = x % up;
    lemma_fundamental_div_mod(x as int, up as int);
    lemma_mod_pos_bound(x as int, up as int);
    let y = r + down;
    let q2 = y / up;
    let r2 = y % up;
    lemma_fundamental_div_mod(y as int, up as int);
    lemma_mod_pos_bound(y as int, up as int);
    assert((k + 1) * down == x + down) by (nonlinear_arith)
        requires
            x == k * down,
    ;
    assert((k + 1) * down == (q + q2) * up + r2) by (nonlinear_arith)
        requires
            x == up * q + r,
            y == up * q2 + r2,
            y == r + down,
            (k + 1) * down == x + down,
    ;
    lemma_fundamental_div_mod_converse(((k + 1) * down) as int, up as int, (q + q2) as int, r2 as int);
    assert(q2 <= down) by (nonlinear_arith)
        requires
            y == up * q2 + r2,
            y == r + down,
            r < up,
            r2 >= 0,
            up > 0,
            down >= 0,
    ;
}

/// Where one output frame comes from: the first of the `TAPS` buffered
/// input frames it weighs, and the filter phase it weighs them with.
#[derive(Clone, Copy, Debug, PartialEq, Eq, Structural)]
pub struct Window {
    pub start: usize,
    pub phase: usize,
}

/// The converter's position in the stream: which output frame comes next,
/// and where its window lies in the buffered input. Output frame `k`
/// always weighs the frames from `frame_of(k)` with phase `phase_of(k)`,
/// however the stream was cut into chunks.
pub struct ResampleCursor {
    up: usize,
    down: usize,
    /// The buffered frame at or just before the next output position.
    next: usize,
    /// The next output position past `next`, in steps of `1 / up`.
    phase: usize,
    /// Output frames made so far.
    produced: Ghost<nat>,
    /// Input frames let go from the front of the buffer so far.
    dropped: Ghost<nat>,
    /// Input frames in the buffer after the last chunk.
    buffered: Ghost<nat>,
}

impl ResampleCursor {
    /// The ratio's numerator: output frames per `down` input frames.
    pub closed spec fn up(self) -> nat {
        self.up as nat
    }

    /// The ratio's denominator.
    pub closed spec fn down(self) -> nat {
        self.down as nat
    }

    /// Output frames made so far.
    pub closed spec fn produced(self) -> nat {
        self.produced@
    }

    /// Input frames let go from the front of the buffer so far.
    pub closed spec fn dropped(self) -> nat {
        self.dropped@
    }

    /// Input frames in the buffer.
    pub closed spec fn buffered(self) -> nat {
        self.buffered@
    }

    /// Frames of the stream taken in so far, the primed silence included.
    pub open spec fn taken(self) -> nat {
        self.dropped() + self.buffered()
    }

    /// The cursor is where the stream has brought it: every output frame
    /// whose window has arrived is made, and no other.
    pub closed spec fn wf(self) -> bool {
        &&& self.up > 0
        &&& self.down > 0
        &&& self.up + self.down <= usize::MAX
        &&& self.phase == phase_of(self.produced@, self.up as nat, self.down as nat)
        &&& self.next + self.dropped@ == PRIMED_FRAMES + frame_of(self.produced@, self.up as nat, self.down as nat)
        &&& self.next >= PRIMED_FRAMES
        &&& forall|k: nat| k < self.produced@ ==> #[trigger] ready(k, self.up as nat, self.down as nat, self.taken())
        &&& !ready(self.produced@, self.up as nat, self.down as nat, self.taken())
    }

    /// A cursor at the start of a stream converted by the ratio `up / down`,
    /// with `PRIMED_FRAMES` silent frames in the buffer.
    pub fn new(up: usize, down: usize) -> (r: ResampleCursor)
        requires
            up > 0,
            down > 0,
            up + down <= usize::MAX,
        ensures
            r.wf(),
            r.up() == up,
            r.down() == down,
            r.produced() == 0,
            r.dropped() == 0,
            r.buffered() == PRIMED_FRAMES,
    {
        let r = ResampleCursor {
            up,
            down,
            next: PRIMED_FRAMES,
            phase: 0,
            produced: Ghost(0),
            dropped: Ghost(0),
            buffered: Ghost(PRIMED_FRAMES as nat),
        };
        assert((0 * (down as nat)) == 0) by (nonlinear_arith);
        assert(frame_of(0, up as nat, down as nat) == 0 && phase_of(0, up as nat, down as nat) == 0);
        r
    }

    /// The buffer now holds `frames` frames: those it kept and the new
    /// chunk behind them. Answers the windows of the output frames this
    /// makes ready, in order, and how many frames to let go from the front
    /// of the buffer, which no later window reaches.
    pub fn plan(&mut self, frames: usize) -> (r: (Vec<Window>, usize))
        requires
            old(self).wf(),
            frames >= old(self).buffered(),
            frames + old(self).down() <= usize::MAX,
        ensures
            final(self).wf(),
            final(self).up() == old(self).up(),
            final(self).down() == old(self).down(),
            final(self).taken() == old(self).dropped() + frames,
            final(self).produced() >= old(self).produced(),
            r.0@.len() == final(self).produced() - old(self).produced(),
            forall|i: int| 0 <= i < r.0@.len() ==> {
                let k = (old(self).produced() + i) as nat;
                &&& (#[trigger] r.0@[i]).start + old(self).dropped() == frame_of(k, old(self).up(), old(self).down())
                &&& r.0@[i].phase == phase_of(k, old(self).up(), old(self).down())
                &&& r.0@[i].start + TAPS <= frames
            },
            r.1 <= frames,
            final(self).dropped() == old(self).dropped() + r.1,
            final(self).buffered() == frames - r.1,
    {
        let ghost up = self.up as nat;
        let ghost down = self.down as nat;
        let ghost p0 = self.produced@;
        let ghost d0 = self.dropped@;
        let ghost total: nat = d0 + frames as nat;
        let mut windows: Vec<Window> = Vec::new();
        proof {
            assert forall|k: nat| k < p0 implies #[trigger] ready(k, up, down, total) by {
                assert(ready(k, up, down, old(self).taken()));
            }
        }
        while self.next < frames && frames - self.next > HALF
            invariant
                self.up == up,
                self.down == down,
                up > 0,
                down > 0,
                up + down <= usize::MAX,
                frames + down <= usize::MAX,
                self.dropped@ == d0,
                total == d0 + frames,
                self.produced@ >= p0,
                self.phase == phase_of(self.produced@, up, down),
                self.next + d0 == PRIMED_FRAMES + frame_of(self.produced@, up, down),
                self.next >= PRIMED_FRAMES,
                forall|k: nat| k < self.produced@ ==> #[trigger] ready(k, up, down, total),
                windows@.len() == self.produced@ - p0,
                forall|i: int| 0 <= i < windows@.len() ==> {
                    let k = (p0 + i) as nat;
                    &&& (#[trigger] windows@[i]).start + d0 == frame_of(k, up, down)
                    &&& windows@[i].phase == phase_of(k, up, down)
                    &&& windows@[i].start + TAPS <= frames
                },
            decreases (if self.next < frames { frames - self.next } else { 0 }), self.up - self.phase,
        {
            let ghost k = self.produced@;
            assert(ready(k, up, down, total));
            windows.push(Window { start: self.next - PRIMED_FRAMES, phase: self.phase });
            proof {
                lemma_step(k, up, down);
                lemma_mod_pos_bound((k * down) as int, up as int);
            }
            let position = self.phase + self.down;
            let step = position / self.up;
            proof {
                lemma_fundamental_div_mod(position as int, up as int);
                lemma_mod_pos_bound(position as int, up as int);
                if step == 0 {
                    assert(position % self.up == position) by (nonlinear_arith)
                        requires
                            position == self.up * (position / self.up) + position % self.up,
                            position / self.up == 0,
                    ;
                }
            }
            self.next = self.next + step;
            self.phase = position % self.up;
            self.produced = Ghost(k + 1);
            proof {
                assert forall|j: nat| j < self.produced@ implies #[trigger] ready(j, up, down, total) by {
                    if j < k {
                        assert(ready(j, up, down, total));
                    }
                }
            }
        }
        proof {
            assert forall|k: nat| k < self.produced@ implies #[trigger] ready(k, up, down, total) by {}
        }
        let keep_from = if self.next - PRIMED_FRAMES < frames { self.next - PRIMED_FRAMES } else { frames };
        self.next = self.next - keep_from;
        self.dropped = Ghost((d0 + keep_from) as nat);
        self.buffered = Ghost((frames - keep_from) as nat);
        (windows, keep_from)
    }
}

/// Cutting the stream into chunks changes nothing: two converters with the
/// same ratio that have taken in as many frames have made the same output
/// frames, each from the window and phase its position gives it.
pub proof fn lemma_chunking_invisible(a: ResampleCursor, b: ResampleCursor)
    requires
        a.wf(),
        b.wf(),
        a.up() == b.up(),
        a.down() == b.down(),
        a.taken() == b.taken(),
    ensures
        a.produced() == b.produced(),
{
    if a.produced() < b.produced() {
        assert(ready(a.produced(), b.up(), b.down(), b.taken()));
    }
    if b.produced() < a.produced() {
        assert(ready(b.produced(), a.up(), a.down(), a.taken()));
    }
}

} // verus!
