//! Hot-path diagnostics counters and the per-output present-rate meter.
//!
//! The counters wrap around as atomic adds do. The meter counts presented frames per
//! output over a half-second window, then stores the derived rate and resets the count,
//! so a dropped frame shows up as a lower rate. Times are monotonic nanoseconds.

use vstd::prelude::*;

use crate::text::{chars_eq, chars_of, string_from};

verus! {

/// The frame, vblank and fence counters, and the renderer's dmabuf preference.
pub struct Counters {
    pub frames: u64,
    pub vblanks: u64,
    pub fence_synchronous: u64,
    pub fence_kms_infence: u64,
    pub fence_fallback: u64,
    /// The active renderer composites from dmabufs (Vulkan); `false` until set.
    pub prefers_dmabuf: bool,
}

/// `x + 1`, wrapping to 0 past the largest `u64`.
pub open spec fn wrap_inc(x: u64) -> u64 {
    if x == u64::MAX {
        0
    } else {
        (x + 1) as u64
    }
}

/// `x + 1`, wrapping to 0 past the largest `u64`, as an atomic add does.
fn wrapping_inc(x: u64) -> (r: u64)
    ensures
        r == wrap_inc(x),
{
    if x == u64::MAX {
        0
    } else {
        x + 1
    }
}

impl Counters {
    /// All counters at zero, no dmabuf preference.
    pub fn new() -> (r: Counters)
        ensures
            r.frames == 0 && r.vblanks == 0 && r.fence_synchronous == 0 && r.fence_kms_infence
                == 0 && r.fence_fallback == 0 && !r.prefers_dmabuf,
    {
        Counters {
            frames: 0,
            vblanks: 0,
            fence_synchronous: 0,
            fence_kms_infence: 0,
            fence_fallback: 0,
            prefers_dmabuf: false,
        }
    }
}

/// One composited frame. Call once per present.
pub fn frame(c: &mut Counters)
    ensures
        *final(c) == (Counters { frames: wrap_inc(old(c).frames), ..*old(c) }),
{
    c.frames = wrapping_inc(c.frames);
}

/// One vblank / page-flip completion.
pub fn vblank(c: &mut Counters)
    ensures
        *final(c) == (Counters { vblanks: wrap_inc(old(c).vblanks), ..*old(c) }),
{
    c.vblanks = wrapping_inc(c.vblanks);
}

/// The renderer used a synchronous (device-wait-idle) completion this frame.
pub fn fence_synchronous(c: &mut Counters)
    ensures
        *final(c) == (Counters { fence_synchronous: wrap_inc(old(c).fence_synchronous), ..*old(c) }),
{
    c.fence_synchronous = wrapping_inc(c.fence_synchronous);
}

/// The renderer produced a KMS IN_FENCE sync file this frame.
pub fn fence_kms_infence(c: &mut Counters)
    ensures
        *final(c) == (Counters { fence_kms_infence: wrap_inc(old(c).fence_kms_infence), ..*old(c) }),
{
    c.fence_kms_infence = wrapping_inc(c.fence_kms_infence);
}

/// A modern-sync attempt failed and fell back to a device drain this frame.
pub fn fence_fallback(c: &mut Counters)
    ensures
        *final(c) == (Counters { fence_fallback: wrap_inc(old(c).fence_fallback), ..*old(c) }),
{
    c.fence_fallback = wrapping_inc(c.fence_fallback);
}

/// Records whether the active renderer composites from dmabufs.
pub fn set_compositor_prefers_dmabuf(c: &mut Counters, yes: bool)
    ensures
        *final(c) == (Counters { prefers_dmabuf: yes, ..*old(c) }),
{
    c.prefers_dmabuf = yes;
}

/// Whether the active renderer composites from dmabufs.
pub fn compositor_prefers_dmabuf(c: &Counters) -> (r: bool)
    ensures
        r == c.prefers_dmabuf,
{
    c.prefers_dmabuf
}

/// The averaging window of the present meter: half a second.
pub const PRESENT_WINDOW_NS: u64 = 500_000_000;

/// One output's meter: frames counted in the current window, when the window began,
/// and the rate derived from the last full window.
#[derive(Clone, Copy, Debug, PartialEq, Eq, Structural)]
pub struct PresentMeter {
    pub frames: u32,
    pub last_ns: u64,
    pub rate: u32,
}

/// The meters, keyed by output, each output once.
pub struct Presents {
    pub meters: Vec<(String, PresentMeter)>,
}

/// `frames` over `dt_ns` nanoseconds as frames per second, rounded to the nearest
/// integer (halves up) and capped at the largest `u32`.
pub open spec fn rate_of(frames: u32, dt_ns: u64) -> u32 {
    let r = (frames * 2_000_000_000 + dt_ns) / (2 * dt_ns);
    if r > u32::MAX {
        u32::MAX
    } else {
        r as u32
    }
}

/// The meter after one more presented frame at `now_ns`: once a full window has passed
/// since it began, the rate is derived and the count restarts.
pub open spec fn meter_after(m: PresentMeter, now_ns: u64) -> PresentMeter {
    let frames = if m.frames == u32::MAX {
        0u32
    } else {
        (m.frames + 1) as u32
    };
    let dt: u64 = if now_ns >= m.last_ns {
        (now_ns - m.last_ns) as u64
    } else {
        0
    };
    if dt >= PRESENT_WINDOW_NS {
        PresentMeter { frames: 0, last_ns: now_ns, rate: rate_of(frames, dt) }
    } else {
        PresentMeter { frames, ..m }
    }
}

/// The index of the first meter for `key`.
pub open spec fn meter_index(v: Seq<(String, PresentMeter)>, key: Seq<char>) -> Option<int>
    decreases v.len(),
{
    if v.len() == 0 {
        None
    } else if v.last().0@ == key {
        match meter_index(v.drop_last(), key) {
            Some(i) => Some(i),
            None => Some(v.len() - 1),
        }
    } else {
        meter_index(v.drop_last(), key)
    }
}

/// No output has two meters.
pub open spec fn keys_unique(v: Seq<(String, PresentMeter)>) -> bool {
    forall|i: int, j: int| 0 <= i < j < v.len() ==> (#[trigger] v[i]).0@ != (#[trigger] v[j]).0@
}

proof fn lemma_meter_index(v: Seq<(String, PresentMeter)>, key: Seq<char>)
    ensures
        meter_index(v, key) matches Some(i) ==> 0 <= i < v.len() && v[i].0@ == key && forall|
            k: int,
        | 0 <= k < i ==> v[k].0@ != key,
        meter_index(v, key) is None ==> forall|k: int| 0 <= k < v.len() ==> v[k].0@ != key,
    decreases v.len(),
{
    if v.len() > 0 {
        lemma_meter_index(v.drop_last(), key);
        assert forall|k: int| 0 <= k < v.len() - 1 implies v.drop_last()[k] == v[k] by {}
    }
}

/// Where the first meter for `key` is.
fn find_meter(v: &Vec<(String, PresentMeter)>, key: &str) -> (r: Option<usize>)
    ensures
        r matches Some(i) ==> meter_index(v@, key@) == Some(i as int),
        r is None ==> meter_index(v@, key@) is None,
{
    let k = chars_of(key);
    let mut i: usize = 0;
    proof {
        lemma_meter_index(v@, key@);
    }
    while i < v.len()
        invariant
            i <= v.len(),
            k@ == key@,
            forall|j: int| 0 <= j < i ==> v@[j].0@ != key@,
        decreases v.len() - i,
    {
        if chars_eq(&chars_of(v[i].0.as_str()), &k) {
            proof {
                lemma_first_index(v@, key@, i as int);
            }
            return Some(i);
        }
        i += 1;
    }
    proof {
        lemma_absent_index(v@, key@);
    }
    None
}

proof fn lemma_first_index(v: Seq<(String, PresentMeter)>, key: Seq<char>, i: int)
    requires
        0 <= i < v.len(),
        v[i].0@ == key,
        forall|j: int| 0 <= j < i ==> v[j].0@ != key,
    ensures
        meter_index(v, key) == Some(i),
    decreases v.len(),
{
    if i < v.len() - 1 {
        lemma_first_index(v.drop_last(), key, i);
    } else {
        lemma_absent_index(v.drop_last(), key);
    }
}

proof fn lemma_absent_index(v: Seq<(String, PresentMeter)>, key: Seq<char>)
    requires
        forall|j: int| 0 <= j < v.len() ==> v[j].0@ != key,
    ensures
        meter_index(v, key) is None,
    decreases v.len(),
{
    if v.len() > 0 {
        lemma_absent_index(v.drop_last(), key);
    }
}

/// The meter after a frame, computed.
fn meter_step(m: PresentMeter, now_ns: u64) -> (r: PresentMeter)
    ensures
        r == meter_after(m, now_ns),
{
    let frames = if m.frames == u32::MAX {
        0
    } else {
        m.frames + 1
    };
    let dt = if now_ns >= m.last_ns {
        now_ns - m.last_ns
    } else {
        0
    };
    if dt >= PRESENT_WINDOW_NS {
        let q = (frames as u128 * 2_000_000_000 + dt as u128) / (2 * dt as u128);
        let rate = if q > u32::MAX as u128 {
            u32::MAX
        } else {
            q as u32
        };
        PresentMeter { frames: 0, last_ns: now_ns, rate }
    } else {
        PresentMeter { frames, ..m }
    }
}

impl Presents {
    /// No output metered yet.
    pub fn new() -> (r: Presents)
        ensures
            r.meters@.len() == 0,
    {
        Presents { meters: Vec::new() }
    }
}

/// Records one presented frame on `output_key` at `now_ns`: a known output's meter
/// advances (deriving and resetting at the end of a window); a new output starts with
/// one frame, its window beginning now, and no rate yet.
pub fn present(p: &mut Presents, output_key: &str, now_ns: u64)
    requires
        keys_unique(old(p).meters@),
    ensures
        keys_unique(final(p).meters@),
        match meter_index(old(p).meters@, output_key@) {
            Some(i) => final(p).meters@.len() == old(p).meters@.len() && final(p).meters@[i].0@
                == output_key@ && final(p).meters@[i].1 == meter_after(old(p).meters@[i].1, now_ns)
                && forall|k: int|
                0 <= k < old(p).meters@.len() && k != i ==> #[trigger] final(p).meters@[k]
                    == old(p).meters@[k],
            None => final(p).meters@.len() == old(p).meters@.len() + 1 && final(p).meters@.last().0@
                == output_key@ && final(p).meters@.last().1 == (PresentMeter {
                frames: 1,
                last_ns: now_ns,
                rate: 0,
            }) && forall|k: int|
                0 <= k < old(p).meters@.len() ==> #[trigger] final(p).meters@[k] == old(
                    p,
                ).meters@[k],
        },
{
    proof {
        lemma_meter_index(p.meters@, output_key@);
    }
    match find_meter(&p.meters, output_key) {
        Some(i) => {
            let m = meter_step(p.meters[i].1, now_ns);
            let key = string_from(p.meters[i].0.as_str());
            let ghost before = p.meters@;
            p.meters.set(i, (key, m));
            proof {
                assert forall|a: int, b: int| 0 <= a < b < p.meters@.len() implies (
                #[trigger] p.meters@[a]).0@ != (#[trigger] p.meters@[b]).0@ by {
                    assert(before[a].0@ != before[b].0@);
                }
            }
        },
        None => {
            let ghost before = p.meters@;
            p.meters.push((string_from(output_key), PresentMeter { frames: 1, last_ns: now_ns, rate: 0 }));
            proof {
                assert forall|a: int, b: int| 0 <= a < b < p.meters@.len() implies (
                #[trigger] p.meters@[a]).0@ != (#[trigger] p.meters@[b]).0@ by {
                    if b == before.len() {
                        assert(before[a].0@ != output_key@);
                    } else {
                        assert(before[a].0@ != before[b].0@);
                    }
                }
            }
        },
    }
}

/// The last windowed present rate (fps) on `output_key`; 0 for an unknown output.
pub fn present_rate(p: &Presents, output_key: &str) -> (r: u32)
    ensures
        r == match meter_index(p.meters@, output_key@) {
            Some(i) => p.meters@[i].1.rate,
            None => 0,
        },
{
    proof {
        lemma_meter_index(p.meters@, output_key@);
    }
    match find_meter(&p.meters, output_key) {
        Some(i) => p.meters[i].1.rate,
        None => 0,
    }
}

/// A counter after `m` wrapping increments from `n`.
pub open spec fn incs(n: u64, m: nat) -> u64
    decreases m,
{
    if m == 0 {
        n
    } else {
        wrap_inc(incs(n, (m - 1) as nat))
    }
}

/// `m` increments lose nothing: they add `m`, wrapping past the largest `u64` as an
/// atomic add does. (Each of [`frame`], [`vblank`] and the fence counters is one
/// increment of its own counter and leaves the others alone.)
pub proof fn lemma_incs_add(n: u64, m: nat)
    ensures
        incs(n, m) == (n + m) % 0x1_0000_0000_0000_0000,
    decreases m,
{
    if m > 0 {
        lemma_incs_add(n, (m - 1) as nat);
        let k = (n + m - 1) % 0x1_0000_0000_0000_0000;
        assert((k + 1) % 0x1_0000_0000_0000_0000 == (n + m) % 0x1_0000_0000_0000_0000) by {
            vstd::arithmetic::div_mod::lemma_add_mod_noop(n + m - 1, 1, 0x1_0000_0000_0000_0000);
            vstd::arithmetic::div_mod::lemma_small_mod(1, 0x1_0000_0000_0000_0000);
        }
        if k == u64::MAX {
        } else {
            vstd::arithmetic::div_mod::lemma_small_mod((k + 1) as nat, 0x1_0000_0000_0000_0000);
        }
    }
}

/// The counters after `m` calls of [`frame`].
pub open spec fn after_frames(c: Counters, m: nat) -> Counters
    decreases m,
{
    if m == 0 {
        c
    } else {
        let p = after_frames(c, (m - 1) as nat);
        Counters { frames: wrap_inc(p.frames), ..p }
    }
}

/// `m` calls of [`frame`] add `m` to the frame counter, wrapping past the largest `u64`,
/// and leave every other counter and the dmabuf flag as they were.
pub proof fn lemma_frames_after(c: Counters, m: nat)
    ensures
        after_frames(c, m).frames == (c.frames + m) % 0x1_0000_0000_0000_0000,
        after_frames(c, m).vblanks == c.vblanks,
        after_frames(c, m).fence_synchronous == c.fence_synchronous,
        after_frames(c, m).fence_kms_infence == c.fence_kms_infence,
        after_frames(c, m).fence_fallback == c.fence_fallback,
        after_frames(c, m).prefers_dmabuf == c.prefers_dmabuf,
    decreases m,
{
    lemma_frames_incs(c, m);
    lemma_incs_add(c.frames, m);
}

proof fn lemma_frames_incs(c: Counters, m: nat)
    ensures
        after_frames(c, m).frames == incs(c.frames, m),
        after_frames(c, m).vblanks == c.vblanks,
        after_frames(c, m).fence_synchronous == c.fence_synchronous,
        after_frames(c, m).fence_kms_infence == c.fence_kms_infence,
        after_frames(c, m).fence_fallback == c.fence_fallback,
        after_frames(c, m).prefers_dmabuf == c.prefers_dmabuf,
    decreases m,
{
    if m > 0 {
        lemma_frames_incs(c, (m - 1) as nat);
    }
}

/// One presented frame on a meter, stated field by field. Within the window (less than
/// half a second since it began, or a clock that went back) the frame is counted and
/// the window start and the last rate stay. A frame that closes the window starts the
/// next one at that frame, with the count back at zero, and the new rate is that
/// window's frames per second rounded to the nearest (halves up): `rate * dt` is within
/// half a second's worth of `frames * 10^9`, unless capped at the largest `u32`.
pub proof fn lemma_meter_window(m: PresentMeter, now_ns: u64)
    ensures
        ({
            let r = meter_after(m, now_ns);
            let counted: int = if m.frames == u32::MAX {
                0
            } else {
                m.frames + 1
            };
            if now_ns >= m.last_ns && now_ns - m.last_ns >= 500_000_000 {
                let dt = now_ns - m.last_ns;
                &&& r.last_ns == now_ns
                &&& r.frames == 0
                &&& (r.rate < u32::MAX ==> 2 * r.rate * dt <= 2 * counted * 1_000_000_000 + dt
                    < 2 * (r.rate + 1) * dt)
            } else {
                &&& r.last_ns == m.last_ns
                &&& r.frames == counted
                &&& r.rate == m.rate
            }
        }),
{
    let counted: int = if m.frames == u32::MAX {
        0
    } else {
        m.frames + 1
    };
    if now_ns >= m.last_ns && now_ns - m.last_ns >= 500_000_000 {
        let dt: int = now_ns - m.last_ns;
        let q = (counted * 2_000_000_000 + dt) / (2 * dt);
        let r = meter_after(m, now_ns);
        if r.rate < u32::MAX {
            assert(q == r.rate);
            vstd::arithmetic::div_mod::lemma_fundamental_div_mod(counted * 2_000_000_000 + dt, 2 * dt);
            let rem = (counted * 2_000_000_000 + dt) % (2 * dt);
            assert(0 <= rem < 2 * dt) by {
                vstd::arithmetic::div_mod::lemma_mod_bound(counted * 2_000_000_000 + dt, 2 * dt);
            }
            assert(2 * r.rate * dt == (2 * dt) * q) by (nonlinear_arith)
                requires
                    q == r.rate,
            ;
            assert(2 * (r.rate + 1) * dt == (2 * dt) * q + 2 * dt) by (nonlinear_arith)
                requires
                    q == r.rate,
            ;
        }
    }
}

/// A frame less than half a second after the frame that closed a window is only
/// counted: the rate of that last full window stays, whatever came before.
pub proof fn lemma_meter_rate_holds(m: PresentMeter, t1: u64, t2: u64)
    requires
        t1 >= m.last_ns && t1 - m.last_ns >= 500_000_000,
        t1 <= t2 < t1 + 500_000_000,
    ensures
        meter_after(meter_after(m, t1), t2).rate == meter_after(m, t1).rate,
        meter_after(meter_after(m, t1), t2).last_ns == t1,
        meter_after(meter_after(m, t1), t2).frames == 1,
{
    lemma_meter_window(m, t1);
    lemma_meter_window(meter_after(m, t1), t2);
}

} // verus!
