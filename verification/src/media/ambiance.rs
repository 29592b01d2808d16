//! Background-ambiance mixing with duck/normal level smoothing.
//!
//! Levels are per-mille gains (`1000` = unity): integer fixed point keeps
//! the smoothing and mixing arithmetic exact and verifiable.  A scaled
//! ambient sample is `sample * level / 1000`, truncated toward zero.

use vstd::prelude::*;

use crate::media::AudioFrame;
use crate::media::MediaError;
use crate::media::Samples;
use crate::media::INTERNAL_SAMPLERATE;

verus! {

/// Default duck gain: 20% volume while the far side speaks.
pub const DEFAULT_DUCK_LEVEL: u32 = 200;

/// Default normal gain: 80% volume.
pub const DEFAULT_NORMAL_LEVEL: u32 = 800;

/// Default per-frame level change.
pub const DEFAULT_TRANSITION_SPEED: u32 = 50;

/// Ambiance configuration; unset fields fall back to the defaults above.
pub struct AmbianceOption {
    pub path: Option<String>,
    pub duck_level: Option<u32>,
    pub normal_level: Option<u32>,
    pub transition_speed: Option<u32>,
    pub enabled: Option<bool>,
}

impl AmbianceOption {
    /// Fill every unset field from `other`.
    pub fn merge(&mut self, other: &AmbianceOption)
        ensures
            old(self).path is Some ==> final(self).path == old(self).path,
            old(self).path is None && other.path is None ==> final(self).path is None,
            other.path matches Some(p) ==> (old(self).path is None ==> (final(self).path
                matches Some(q) && q@ == p@)),
            final(self).duck_level == if old(self).duck_level is Some {
                old(self).duck_level
            } else {
                other.duck_level
            },
            final(self).normal_level == if old(self).normal_level is Some {
                old(self).normal_level
            } else {
                other.normal_level
            },
            final(self).transition_speed == if old(self).transition_speed is Some {
                old(self).transition_speed
            } else {
                other.transition_speed
            },
            final(self).enabled == if old(self).enabled is Some {
                old(self).enabled
            } else {
                other.enabled
            },
    {
        if self.path.is_none() {
            self.path = match &other.path {
                Some(p) => Some(p.clone()),
                None => None,
            };
        }
        if self.duck_level.is_none() {
            self.duck_level = other.duck_level;
        }
        if self.normal_level.is_none() {
            self.normal_level = other.normal_level;
        }
        if self.transition_speed.is_none() {
            self.transition_speed = other.transition_speed;
        }
        if self.enabled.is_none() {
            self.enabled = other.enabled;
        }
    }
}

/// Whether a frame counts as "the foreign side is speaking": non-empty
/// PCM or any RTP payload; an `Empty` frame does not.
pub open spec fn is_speaking(s: Samples) -> bool {
    match s {
        Samples::PCM { samples } => samples@.len() > 0,
        Samples::RTP { .. } => true,
        Samples::Empty => false,
    }
}

/// One smoothing step: move `cur` toward `target` by at most `speed`,
/// never overshooting.
pub open spec fn level_step(cur: u32, target: u32, speed: u32) -> u32 {
    if cur < target {
        if target - cur <= speed {
            target
        } else {
            (cur + speed) as u32
        }
    } else if cur > target {
        if cur - target <= speed {
            target
        } else {
            (cur - speed) as u32
        }
    } else {
        cur
    }
}

/// The level after a whole sequence of speaking/not-speaking frames.
pub open spec fn levels_after(
    cur: u32,
    speaking: Seq<bool>,
    duck: u32,
    normal: u32,
    speed: u32,
) -> u32
    decreases speaking.len(),
{
    if speaking.len() == 0 {
        cur
    } else {
        levels_after(
            level_step(cur, if speaking[0] { duck } else { normal }, speed),
            speaking.skip(1),
            duck,
            normal,
            speed,
        )
    }
}

/// An ambient sample scaled by a per-mille gain, truncated toward zero.
pub open spec fn scaled_ambient(amb: i16, level: u32) -> int {
    if amb >= 0 {
        ((amb as int) * (level as int)) / 1000
    } else {
        -((-(amb as int) * (level as int)) / 1000)
    }
}

/// Clamp to the 16-bit signed sample range.
pub open spec fn clamp16(v: int) -> i16 {
    if v < -32768 {
        -32768i16
    } else if v > 32767 {
        32767i16
    } else {
        v as i16
    }
}

/// A speech sample with one scaled ambient sample mixed in by addition.
pub open spec fn mixed_sample(orig: i16, amb: i16, level: u32) -> i16 {
    clamp16(orig + scaled_ambient(amb, level))
}

/// Mixes a cyclically-read ambient bed into every frame of a track,
/// ducking while the foreign side speaks.
pub struct AmbianceProcessor {
    pub samples: Vec<i16>,
    pub cursor: usize,
    pub duck_level: u32,
    pub normal_level: u32,
    pub enabled: bool,
    pub current_level: u32,
    pub transition_speed: u32,
}

impl AmbianceProcessor {
    /// The cursor stays inside the ambient buffer.
    pub open spec fn wf(self) -> bool {
        &&& self.samples@.len() == 0 ==> self.cursor == 0
        &&& self.samples@.len() > 0 ==> self.cursor < self.samples@.len()
    }

    /// The ambient sample that the `i`-th upcoming read will return.
    pub open spec fn ambient_at(self, i: int) -> i16
        recommends
            self.wf(),
            self.samples@.len() > 0,
    {
        self.samples@[(self.cursor + i) % (self.samples@.len() as int)]
    }

    /// Build the processor from an already-decoded ambient bed.
    ///
    /// The configuration must carry a source path (the caller loads it);
    /// a missing path is a configuration error, exactly as for the
    /// asset-loading construction it models.
    pub fn new(option: &AmbianceOption, samples: Vec<i16>) -> (r: Result<
        AmbianceProcessor,
        MediaError,
    >)
        ensures
            r is Ok <==> option.path is Some,
            r matches Ok(p) ==> {
                &&& p.wf()
                &&& p.samples == samples
                &&& p.cursor == 0
                &&& p.duck_level == option.duck_level.unwrap_or(DEFAULT_DUCK_LEVEL)
                &&& p.normal_level == option.normal_level.unwrap_or(DEFAULT_NORMAL_LEVEL)
                &&& p.transition_speed == option.transition_speed.unwrap_or(
                    DEFAULT_TRANSITION_SPEED,
                )
                &&& p.enabled == option.enabled.unwrap_or(true)
                &&& p.current_level == p.normal_level
            },
            r matches Err(e) ==> e == MediaError::Configuration,
    {
        if option.path.is_none() {
            return Err(MediaError::Configuration);
        }
        let normal_level = match option.normal_level {
            Some(v) => v,
            None => DEFAULT_NORMAL_LEVEL,
        };
        Ok(
            AmbianceProcessor {
                samples,
                cursor: 0,
                duck_level: match option.duck_level {
                    Some(v) => v,
                    None => DEFAULT_DUCK_LEVEL,
                },
                normal_level,
                enabled: match option.enabled {
                    Some(v) => v,
                    None => true,
                },
                current_level: normal_level,
                transition_speed: match option.transition_speed {
                    Some(v) => v,
                    None => DEFAULT_TRANSITION_SPEED,
                },
            },
        )
    }

    pub fn set_enabled(&mut self, enabled: bool)
        ensures
            *final(self) == (AmbianceProcessor { enabled, ..*old(self) }),
    {
        self.enabled = enabled;
    }

    pub fn set_levels(&mut self, normal: u32, duck: u32)
        ensures
            *final(self) == (AmbianceProcessor {
                normal_level: normal,
                duck_level: duck,
                ..*old(self)
            }),
    {
        self.normal_level = normal;
        self.duck_level = duck;
    }

    /// Read one sample from the cyclic ambient buffer and advance.
    pub fn get_next_ambient_sample(&mut self) -> (r: i16)
        requires
            old(self).wf(),
        ensures
            final(self).wf(),
            old(self).samples@.len() == 0 ==> r == 0 && *final(self) == *old(self),
            old(self).samples@.len() > 0 ==> {
                &&& r == old(self).samples@[old(self).cursor as int]
                &&& final(self).cursor == (old(self).cursor + 1) % (old(self).samples@.len() as int)
                &&& *final(self) == (AmbianceProcessor {
                    cursor: final(self).cursor,
                    ..*old(self)
                })
            },
    {
        if self.samples.len() == 0 {
            return 0;
        }
        let s = self.samples[self.cursor];
        self.cursor = (self.cursor + 1) % self.samples.len();
        s
    }

    /// Advance `current_level` one smoothing step toward the target
    /// selected by whether the foreign side is speaking.
    fn advance_level(&mut self, speaking: bool)
        ensures
            final(self).current_level == level_step(
                old(self).current_level,
                if speaking {
                    old(self).duck_level
                } else {
                    old(self).normal_level
                },
                old(self).transition_speed,
            ),
            *final(self) == (AmbianceProcessor {
                current_level: final(self).current_level,
                ..*old(self)
            }),
    {
        let target = if speaking {
            self.duck_level
        } else {
            self.normal_level
        };
        if self.current_level < target {
            let diff = target - self.current_level;
            if diff <= self.transition_speed {
                self.current_level = target;
            } else {
                self.current_level = self.current_level + self.transition_speed;
            }
        } else if self.current_level > target {
            let diff = self.current_level - target;
            if diff <= self.transition_speed {
                self.current_level = target;
            } else {
                self.current_level = self.current_level - self.transition_speed;
            }
        }
    }

    /// Scale one ambient sample by the current per-mille level.
    fn scale_sample(&self, amb: i16) -> (r: i64)
        ensures
            r == scaled_ambient(amb, self.current_level),
            -150000000000 <= r <= 150000000000,
    {
        let level = self.current_level as u64;
        if amb >= 0 {
            let a = amb as u64;
            proof {
                assert(a * level <= 32767 * 4294967295) by (nonlinear_arith)
                    requires
                        a <= 32767,
                        level <= 4294967295,
                ;
            }
            let q = (a * level) / 1000;
            proof {
                vstd::arithmetic::div_mod::lemma_div_is_ordered(
                    (a * level) as int,
                    140735340806145int,
                    1000int,
                );
            }
            q as i64
        } else {
            let mag = (-(amb as i64)) as u64;
            proof {
                assert(mag * level <= 32768 * 4294967295) by (nonlinear_arith)
                    requires
                        mag <= 32768,
                        level <= 4294967295,
                ;
            }
            let q = (mag * level) / 1000;
            proof {
                vstd::arithmetic::div_mod::lemma_div_is_ordered(
                    (mag * level) as int,
                    140737488322560int,
                    1000int,
                );
            }
            -(q as i64)
        }
    }

    /// Whether the processor touches frames at all: it must be enabled
    /// and hold a non-empty ambient bed.
    pub open spec fn active(self) -> bool {
        self.enabled && self.samples@.len() > 0
    }

    /// The rate a synthesized frame uses: the frame's own rate, or the
    /// internal default when the frame carries none.
    pub open spec fn synth_rate(f: AudioFrame) -> u32 {
        if f.sample_rate > 0 {
            f.sample_rate
        } else {
            INTERNAL_SAMPLERATE
        }
    }

    /// Samples in a synthesized 20 ms frame at `rate`.
    pub open spec fn synth_frame_size(rate: u32) -> int {
        ((rate as int) * 20) / 1000
    }

    /// Apply the per-frame ambiance contract to one frame.
    ///
    /// When inactive the frame passes through unchanged.  Otherwise the
    /// level advances one smoothing step toward duck or normal (chosen by
    /// whether the frame says the foreign side is speaking); PCM samples
    /// each get one cyclically-read, scaled ambient sample added and are
    /// clamped; an `Empty` frame is replaced by 20 ms of pure scaled
    /// ambient bed; RTP payloads pass through unmodified.
    pub fn process_frame(&mut self, frame: &mut AudioFrame) -> (r: Result<(), MediaError>)
        requires
            old(self).wf(),
        ensures
            final(self).wf(),
            r is Ok,
            final(frame).track_id == old(frame).track_id,
            final(frame).timestamp == old(frame).timestamp,
            !old(self).active() ==> *final(self) == *old(self) && *final(frame) == *old(frame),
            old(self).active() ==> final(self).current_level == level_step(
                old(self).current_level,
                if is_speaking(old(frame).samples) {
                    old(self).duck_level
                } else {
                    old(self).normal_level
                },
                old(self).transition_speed,
            ),
            old(self).active() ==> final(self).samples == old(self).samples,
            old(self).active() ==> final(self).duck_level == old(self).duck_level,
            old(self).active() ==> final(self).normal_level == old(self).normal_level,
            old(self).active() ==> final(self).transition_speed == old(self).transition_speed,
            old(self).active() ==> final(self).enabled,
            old(self).active() && old(frame).samples is RTP ==> *final(frame) == *old(frame)
                && final(self).cursor == old(self).cursor,
            old(frame).samples matches Samples::PCM { samples: s } ==> (old(self).active() ==> (
            final(frame).samples matches Samples::PCM { samples: out } && out@.len() == s@.len()
                && (forall|i: int|
                0 <= i < s@.len() ==> out@[i] == mixed_sample(
                    s@[i],
                    old(self).ambient_at(i),
                    final(self).current_level,
                )) && final(self).cursor == (old(self).cursor + s@.len()) % (
            old(self).samples@.len() as int) && final(frame).sample_rate == old(frame).sample_rate
                && final(frame).channels == old(frame).channels && final(frame).track_id == old(
                frame,
            ).track_id && final(frame).timestamp == old(frame).timestamp)),
            old(frame).samples is Empty ==> (old(self).active() ==> (
            final(frame).samples matches Samples::PCM { samples: out } && out@.len()
                == Self::synth_frame_size(Self::synth_rate(*old(frame))) && (forall|i: int|
                0 <= i < out@.len() ==> out@[i] == clamp16(
                    scaled_ambient(old(self).ambient_at(i), final(self).current_level),
                )) && final(self).cursor == (old(self).cursor + out@.len()) % (
            old(self).samples@.len() as int) && final(frame).sample_rate == Self::synth_rate(
                *old(frame),
            ) && final(frame).channels == 1 && final(frame).track_id == old(frame).track_id
                && final(frame).timestamp == old(frame).timestamp)),
    {
        if !self.enabled || self.samples.len() == 0 {
            return Ok(());
        }
        let speaking = match &frame.samples {
            Samples::PCM { samples } => samples.len() > 0,
            Samples::RTP { .. } => true,
            Samples::Empty => false,
        };
        self.advance_level(speaking);
        let ghost mid = *self;
        let ghost len = self.samples@.len() as int;
        proof {
            vstd::arithmetic::div_mod::lemma_small_mod(mid.cursor as nat, mid.samples@.len());
        }
        match &mut frame.samples {
            Samples::PCM { samples } => {
                let ghost orig = samples@;
                let n = samples.len();
                let mut i: usize = 0;
                while i < n
                    invariant
                        mid.wf(),
                        mid.samples@.len() > 0,
                        *self == (AmbianceProcessor { cursor: self.cursor, ..mid }),
                        self.wf(),
                        n == samples@.len(),
                        orig.len() == n,
                        i <= n,
                        self.cursor == (mid.cursor + i) % len,
                        len == mid.samples@.len() as int,
                        forall|j: int| i <= j < n ==> samples@[j] == orig[j],
                        forall|j: int|
                            0 <= j < i ==> samples@[j] == mixed_sample(
                                orig[j],
                                mid.ambient_at(j),
                                mid.current_level,
                            ),
                    decreases n - i,
                {
                    let amb = self.get_next_ambient_sample();
                    proof {
                        assert(amb == mid.ambient_at(i as int));
                        if len == 1 {
                            assert(self.cursor == 0);
                            assert((mid.cursor + i + 1) % len == 0) by (nonlinear_arith)
                                requires
                                    len == 1,
                                    mid.cursor + i + 1 >= 0,
                            ;
                        } else {
                            vstd::arithmetic::div_mod::lemma_add_mod_noop(
                                mid.cursor + i,
                                1,
                                len,
                            );
                            vstd::arithmetic::div_mod::lemma_small_mod(1nat, len as nat);
                        }
                    }
                    let orig_sample = samples[i];
                    let scaled = self.scale_sample(amb);
                    let mixed = orig_sample as i64 + scaled;
                    let clamped: i64 = if mixed < -32768 {
                        -32768
                    } else if mixed > 32767 {
                        32767
                    } else {
                        mixed
                    };
                    samples.set(i, clamped as i16);
                    i += 1;
                }
            },
            Samples::Empty => {
                let sample_rate = if frame.sample_rate > 0 {
                    frame.sample_rate
                } else {
                    INTERNAL_SAMPLERATE
                };
                let frame_size_wide = (sample_rate as u64) * 20 / 1000;
                let frame_size = frame_size_wide as usize;
                let mut ambient_samples: Vec<i16> = Vec::new();
                let mut i: usize = 0;
                while i < frame_size
                    invariant
                        mid.wf(),
                        mid.samples@.len() > 0,
                        *self == (AmbianceProcessor { cursor: self.cursor, ..mid }),
                        self.wf(),
                        i <= frame_size,
                        ambient_samples@.len() == i,
                        self.cursor == (mid.cursor + i) % len,
                        len == mid.samples@.len() as int,
                        forall|j: int|
                            0 <= j < i ==> ambient_samples@[j] == clamp16(
                                scaled_ambient(mid.ambient_at(j), mid.current_level),
                            ),
                    decreases frame_size - i,
                {
                    let amb = self.get_next_ambient_sample();
                    proof {
                        assert(amb == mid.ambient_at(i as int));
                        if len == 1 {
                            assert((mid.cursor + i + 1) % len == 0) by (nonlinear_arith)
                                requires
                                    len == 1,
                                    mid.cursor + i + 1 >= 0,
                            ;
                        } else {
                            vstd::arithmetic::div_mod::lemma_add_mod_noop(
                                mid.cursor + i,
                                1,
                                len,
                            );
                            vstd::arithmetic::div_mod::lemma_small_mod(1nat, len as nat);
                        }
                    }
                    let scaled = self.scale_sample(amb);
                    let clamped: i64 = if scaled < -32768 {
                        -32768
                    } else if scaled > 32767 {
                        32767
                    } else {
                        scaled
                    };
                    ambient_samples.push(clamped as i16);
                    i += 1;
                }
                frame.samples = Samples::PCM { samples: ambient_samples };
                frame.sample_rate = sample_rate;
                frame.channels = 1;
            },
            Samples::RTP { .. } => {},
        }
        Ok(())
    }
}

/// The lower end of the range spanned by the duck and normal levels.
pub open spec fn level_lo(duck: u32, normal: u32) -> u32 {
    if duck <= normal {
        duck
    } else {
        normal
    }
}

/// The upper end of the range spanned by the duck and normal levels.
pub open spec fn level_hi(duck: u32, normal: u32) -> u32 {
    if duck <= normal {
        normal
    } else {
        duck
    }
}

/// One smoothing step never overshoots its target and moves the level by
/// at most `speed`.
pub proof fn lemma_level_step_bounded(cur: u32, target: u32, speed: u32)
    ensures
        cur <= target ==> cur <= level_step(cur, target, speed) <= target,
        target <= cur ==> target <= level_step(cur, target, speed) <= cur,
        level_step(cur, target, speed) <= cur + speed,
        cur <= level_step(cur, target, speed) + speed,
{
}

/// Ducking monotonicity: for every sequence of speaking/not-speaking
/// frames, a level that starts inside the closed range spanned by the
/// duck and normal levels stays inside it.
pub proof fn lemma_ducking_bounded(
    cur: u32,
    speaking: Seq<bool>,
    duck: u32,
    normal: u32,
    speed: u32,
)
    requires
        level_lo(duck, normal) <= cur <= level_hi(duck, normal),
    ensures
        level_lo(duck, normal) <= levels_after(cur, speaking, duck, normal, speed) <= level_hi(
            duck,
            normal,
        ),
    decreases speaking.len(),
{
    if speaking.len() > 0 {
        let target = if speaking[0] {
            duck
        } else {
            normal
        };
        lemma_level_step_bounded(cur, target, speed);
        lemma_ducking_bounded(
            level_step(cur, target, speed),
            speaking.skip(1),
            duck,
            normal,
            speed,
        );
    }
}

/// One read advances the upcoming-sample sequence by exactly one: the
/// `i`-th sample after a read is the `i + 1`-st before it, so `n` reads
/// return `ambient_at(0), ..., ambient_at(n - 1)` of the starting state.
pub proof fn lemma_ambient_advance(before: AmbianceProcessor, after: AmbianceProcessor, i: int)
    requires
        before.wf(),
        before.samples@.len() > 0,
        after.samples == before.samples,
        after.cursor == (before.cursor + 1) % (before.samples@.len() as int),
        i >= 0,
    ensures
        after.ambient_at(i) == before.ambient_at(i + 1),
{
    let n = before.samples@.len() as int;
    if n == 1 {
        assert((after.cursor + i) % n == 0) by (nonlinear_arith)
            requires
                n == 1,
                after.cursor + i >= 0,
        ;
        assert((before.cursor + (i + 1)) % n == 0) by (nonlinear_arith)
            requires
                n == 1,
                before.cursor + i + 1 >= 0,
        ;
    } else {
        let a = (before.cursor + 1) % n;
        vstd::arithmetic::div_mod::lemma_mod_bound(before.cursor + 1, n);
        vstd::arithmetic::div_mod::lemma_mod_bound(i, n);
        vstd::arithmetic::div_mod::lemma_small_mod(a as nat, n as nat);
        vstd::arithmetic::div_mod::lemma_add_mod_noop(a, i, n);
        vstd::arithmetic::div_mod::lemma_add_mod_noop(before.cursor + 1, i, n);
        assert((a + i) % n == (before.cursor + 1 + i) % n);
    }
}

/// Ambient cycling: the sample read `len(buffer) + k` positions ahead is
/// the sample read `k` positions ahead, so a pass over the whole buffer
/// restarts the same sequence.
pub proof fn lemma_ambient_cycling(p: AmbianceProcessor, k: int)
    requires
        p.wf(),
        p.samples@.len() > 0,
        k >= 0,
    ensures
        p.ambient_at(p.samples@.len() + k) == p.ambient_at(k),
{
    let n = p.samples@.len() as int;
    vstd::arithmetic::div_mod::lemma_mod_add_multiples_vanish(p.cursor + k, n);
}

} // verus!
