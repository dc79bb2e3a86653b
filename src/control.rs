use vstd::prelude::*;

verus! {

/// Command byte that asks the embedded controller for the strongest cooling.
pub const FULL_COOLING: u8 = 0x00;

/// Command byte that switches cooling off.
pub const COOLING_OFF: u8 = 0xff;

/// Sampling interval, in milliseconds, used while the temperature is above the band.
pub const HOT_INTERVAL_MS: u64 = 10000;

/// A level above this one counts as high: leaving it is throttled.
pub const HIGH_LEVEL: u8 = 75;

/// Clamps an integer into the range of a command byte.
pub open spec fn clamp_level(x: int) -> int {
    if x < 0 {
        0
    } else if x > 255 {
        255
    } else {
        x
    }
}

/// The speed curve: an inverted parabola whose vertex sits at `max`, clamped
/// into the command range. Smaller command bytes mean more cooling, so the
/// level reaches full cooling at `max` and rises as the temperature falls.
pub open spec fn fan_level(t: int, max: int) -> int {
    clamp_level(-24 * (t - max) * (t + max) / 1000)
}

/// The lower edge of bucket `i` when `[lo, hi]` is cut into `steps` buckets.
pub open spec fn boundary(lo: int, hi: int, steps: int, i: int) -> int {
    lo + (hi - lo) * i / steps
}

/// The highest bucket below `n` whose lower edge does not exceed `t`, or 0
/// when there is none.
pub open spec fn last_bucket(t: int, lo: int, hi: int, steps: int, n: nat) -> nat
    decreases n,
{
    if n == 0 {
        0
    } else if boundary(lo, hi, steps, n - 1) <= t {
        (n - 1) as nat
    } else {
        last_bucket(t, lo, hi, steps, (n - 1) as nat)
    }
}

/// The interval curve, in seconds: one more than the number of buckets above
/// the bucket that holds `t`, so hotter temperatures are sampled more often.
pub open spec fn interval_secs(t: int, lo: int, hi: int, steps: int) -> int {
    1 + steps - last_bucket(t, lo, hi, steps, steps as nat)
}

/// The largest sample, or 0 for no samples.
pub open spec fn max_of(s: Seq<u32>) -> u32
    decreases s.len(),
{
    if s.len() == 0 {
        0
    } else {
        let m = max_of(s.drop_last());
        if s.last() > m {
            s.last()
        } else {
            m
        }
    }
}

/// Whole degrees of a reading in millidegrees, saturated to a byte.
pub open spec fn degrees_of(milli: u32) -> u8 {
    if milli / 1000 > 255 {
        255
    } else {
        (milli / 1000) as u8
    }
}

/// Policy parameters of one control session. Durations are in milliseconds,
/// temperatures in whole degrees.
#[derive(Clone, Copy, Debug, PartialEq, Eq, Structural)]
pub struct FanControllerConfig {
    /// Number of samples per averaging window.
    pub temp_interval_count: u8,
    /// Delay between samples; also the sampling interval the curve adjusts.
    pub temp_interval_length_ms: u64,
    /// How long a high level holds before cooling may be switched off.
    pub throttle_ms: u64,
    /// Window in which a falling temperature still resamples the level.
    pub throttle_off_ms: u64,
    /// Lower edge of the active band.
    pub temp_fan_start_speed: u8,
    /// Upper edge of the active band.
    pub temp_fan_max_speed: u8,
    /// Number of buckets of the interval curve.
    pub steps: u8,
}

impl FanControllerConfig {
    /// The band is not empty and the interval curve has at least one bucket.
    pub open spec fn wf(&self) -> bool {
        self.temp_fan_start_speed < self.temp_fan_max_speed && self.steps > 0
    }

    pub open spec fn default_spec() -> FanControllerConfig {
        FanControllerConfig {
            temp_interval_count: 5,
            temp_interval_length_ms: 5000,
            throttle_ms: 30000,
            throttle_off_ms: 10000,
            temp_fan_start_speed: 60,
            temp_fan_max_speed: 80,
            steps: 8,
        }
    }
}

impl Default for FanControllerConfig {
    fn default() -> (r: FanControllerConfig)
        ensures
            r == FanControllerConfig::default_spec(),
            r.wf(),
    {
        FanControllerConfig {
            temp_interval_count: 5,
            temp_interval_length_ms: 5000,
            throttle_ms: 30000,
            throttle_off_ms: 10000,
            temp_fan_start_speed: 60,
            temp_fan_max_speed: 80,
            steps: 8,
        }
    }
}

/// Control state of one session: the hysteresis bookkeeping and the policy.
/// Times are milliseconds on a clock that never runs backwards.
#[derive(Clone, Copy, Debug, PartialEq, Eq, Structural)]
pub struct FanController {
    /// Filtered temperature of the previous cycle, in whole degrees.
    pub last_temp: u8,
    /// Level that was pending before the speed curve was last evaluated.
    pub last_speed: u8,
    /// Level to command this cycle.
    pub new_speedf: u8,
    /// When the hysteresis timer was last reset.
    pub temp_last_interval: u64,
    pub config: FanControllerConfig,
}

impl FanController {
    pub open spec fn wf(&self) -> bool {
        self.config.wf()
    }

    /// The state after evaluating the speed curve at `t`.
    pub open spec fn resampled(self, t: u8) -> FanController {
        FanController {
            last_speed: self.new_speedf,
            new_speedf: fan_level(t as int, self.config.temp_fan_max_speed as int) as u8,
            ..self
        }
    }

    /// The state after one control cycle whose filtered temperature is `t`,
    /// observed at time `now`.
    pub open spec fn cycle(self, t: u8, now: u64) -> FanController {
        let c = self.config;
        let elapsed = now - self.temp_last_interval;
        let s = if t < c.temp_fan_start_speed {
            if self.last_speed > HIGH_LEVEL {
                if elapsed > c.throttle_ms {
                    FanController { new_speedf: COOLING_OFF, ..self }
                } else {
                    self
                }
            } else if self.new_speedf == COOLING_OFF {
                self
            } else {
                FanController {
                    new_speedf: ((c.temp_interval_length_ms / 1000) % 256) as u8,
                    ..self
                }
            }
        } else if t > c.temp_fan_max_speed {
            FanController {
                new_speedf: FULL_COOLING,
                config: FanControllerConfig { temp_interval_length_ms: HOT_INTERVAL_MS, ..c },
                ..self
            }
        } else if t < self.last_temp {
            if elapsed < c.throttle_off_ms {
                self.resampled(t)
            } else {
                self
            }
        } else {
            let secs = interval_secs(
                t as int,
                c.temp_fan_start_speed as int,
                c.temp_fan_max_speed as int,
                c.steps as int,
            );
            FanController {
                config: FanControllerConfig {
                    temp_interval_length_ms: (secs * 1000) as u64,
                    ..c
                },
                temp_last_interval: now,
                ..self.resampled(t)
            }
        };
        FanController { last_temp: t, ..s }
    }

    /// A fresh session: no history, the timer started at `now`, and the
    /// default policy where none is given.
    pub fn new(config: Option<FanControllerConfig>, now: u64) -> (r: FanController)
        requires
            config matches Some(c) ==> c.wf(),
        ensures
            r.wf(),
            r.config == (match config {
                Some(c) => c,
                None => FanControllerConfig::default_spec(),
            }),
            r.last_temp == 0,
            r.last_speed == 0,
            r.new_speedf == 0,
            r.temp_last_interval == now,
    {
        let config = match config {
            Some(c) => c,
            None => FanControllerConfig::default(),
        };
        FanController { last_temp: 0, last_speed: 0, new_speedf: 0, temp_last_interval: now, config }
    }

    /// Evaluates the speed curve at `new_temp`; the pending level becomes the
    /// last level.
    pub fn new_fan_speed(&mut self, new_temp: u8) -> (r: u8)
        ensures
            r as int == fan_level(new_temp as int, old(self).config.temp_fan_max_speed as int),
            *final(self) == (FanController { last_speed: old(self).new_speedf, ..*old(self) }),
    {
        self.last_speed = self.new_speedf;
        let max = self.config.temp_fan_max_speed;
        proof {
            lemma_fan_level_formula(new_temp as int, max as int);
        }
        if new_temp >= max {
            0
        } else {
            let d: u32 = (max - new_temp) as u32;
            let s: u32 = max as u32 + new_temp as u32;
            assert(24 * d * s <= 24 * 255 * 510) by (nonlinear_arith)
                requires
                    d <= 255,
                    s <= 510,
            ;
            let v: u32 = 24 * d * s / 1000;
            if v > 255 {
                255
            } else {
                v as u8
            }
        }
    }

    /// The interval curve, in seconds, at `new_temp`.
    pub fn calculate_next_interval(&self, new_temp: u8) -> (r: u64)
        requires
            self.config.wf(),
        ensures
            r as int == interval_secs(
                new_temp as int,
                self.config.temp_fan_start_speed as int,
                self.config.temp_fan_max_speed as int,
                self.config.steps as int,
            ),
            2 <= r <= self.config.steps as int + 1,
    {
        let lo: u32 = self.config.temp_fan_start_speed as u32;
        let span: u32 = (self.config.temp_fan_max_speed - self.config.temp_fan_start_speed) as u32;
        let steps: u32 = self.config.steps as u32;
        let t: u32 = new_temp as u32;
        let ghost hi = self.config.temp_fan_max_speed as int;
        let mut k: u32 = 0;
        let mut i: u32 = 0;
        while i < steps
            invariant
                i <= steps,
                steps == self.config.steps,
                steps > 0,
                lo == self.config.temp_fan_start_speed,
                span == hi - lo,
                span <= 255,
                k as nat == last_bucket(t as int, lo as int, hi, steps as int, i as nat),
                i == 0 || k < i,
            decreases steps - i,
        {
            assert(span * i <= 255 * 255) by (nonlinear_arith)
                requires
                    span <= 255,
                    i <= 255,
            ;
            let b: u32 = lo + span * i / steps;
            assert(b as int == boundary(lo as int, hi, steps as int, i as int));
            if b <= t {
                k = i;
            }
            i = i + 1;
        }
        (1 + steps - k) as u64
    }

    /// The averaging reducer: the largest sample, in millidegrees, so that
    /// transient peaks are never missed. No samples give 0.
    pub fn get_average_temperature(samples: &Vec<u32>) -> (r: u32)
        ensures
            r == max_of(samples@),
            forall|i: int| 0 <= i < samples@.len() ==> samples@[i] <= r,
            samples@.len() > 0 ==> exists|i: int| 0 <= i < samples@.len() && samples@[i] == r,
    {
        let mut m: u32 = 0;
        let mut i: usize = 0;
        while i < samples.len()
            invariant
                i <= samples@.len(),
                m == max_of(samples@.subrange(0, i as int)),
                forall|j: int| 0 <= j < i ==> samples@[j] <= m,
                i > 0 ==> exists|j: int| 0 <= j < i && samples@[j] == m,
            decreases samples@.len() - i,
        {
            assert(samples@.subrange(0, i as int + 1).drop_last() =~= samples@.subrange(0, i as int));
            if samples[i] > m {
                m = samples[i];
            }
            i = i + 1;
        }
        assert(samples@.subrange(0, samples@.len() as int) =~= samples@);
        m
    }

    /// Whole degrees of a reading in millidegrees, saturated to a byte.
    pub fn degrees(milli: u32) -> (r: u8)
        ensures
            r == degrees_of(milli),
    {
        let d: u32 = milli / 1000;
        if d > 255 {
            255
        } else {
            d as u8
        }
    }

    /// One control cycle: reduces the samples of the window (millidegrees),
    /// updates the hysteresis state as of time `now`, and returns the command
    /// byte to write to the embedded controller.
    pub fn run(&mut self, samples: &Vec<u32>, now: u64) -> (r: u8)
        requires
            old(self).wf(),
            old(self).temp_last_interval <= now,
        ensures
            *final(self) == old(self).cycle(degrees_of(max_of(samples@)), now),
            r == final(self).new_speedf,
            final(self).wf(),
            final(self).temp_last_interval <= now,
            degrees_of(max_of(samples@)) > old(self).config.temp_fan_max_speed ==> r == FULL_COOLING
                && final(self).config.temp_interval_length_ms == HOT_INTERVAL_MS,
    {
        let avg_temp = Self::degrees(Self::get_average_temperature(samples));
        let elapsed: u64 = now - self.temp_last_interval;
        if avg_temp < self.config.temp_fan_start_speed {
            if self.last_speed > HIGH_LEVEL {
                if elapsed > self.config.throttle_ms {
                    self.new_speedf = COOLING_OFF;
                }
            } else if self.new_speedf == COOLING_OFF {
            } else {
                self.new_speedf = ((self.config.temp_interval_length_ms / 1000) % 256) as u8;
            }
        } else if avg_temp > self.config.temp_fan_max_speed {
            self.new_speedf = FULL_COOLING;
            self.config.temp_interval_length_ms = HOT_INTERVAL_MS;
        } else if avg_temp < self.last_temp {
            if elapsed < self.config.throttle_off_ms {
                self.new_speedf = self.new_fan_speed(avg_temp);
            }
        } else {
            let speed = self.new_fan_speed(avg_temp);
            self.new_speedf = speed;
            let secs = self.calculate_next_interval(avg_temp);
            self.config.temp_interval_length_ms = secs * 1000;
            self.temp_last_interval = now;
        }
        self.last_temp = avg_temp;
        self.new_speedf
    }
}

proof fn lemma_fan_level_formula(t: int, max: int)
    requires
        0 <= t <= 255,
        0 <= max <= 255,
    ensures
        t >= max ==> fan_level(t, max) == 0,
        t < max ==> fan_level(t, max) == clamp_level(24 * (max - t) * (max + t) / 1000),
{
    assert(-24 * (t - max) * (t + max) == 24 * (max - t) * (max + t)) by (nonlinear_arith);
    if t >= max {
        assert(24 * (max - t) * (max + t) <= 0) by (nonlinear_arith)
            requires
                t >= max,
                max >= 0,
                t >= 0,
        ;
    }
}

/// While the temperature stays below the band and the throttle window has
/// not run out, a second idle cycle commands the same level as the first:
/// cooling is not switched off early.
pub proof fn lemma_idle_level_holds(s: FanController, t1: u8, now1: u64, t2: u8, now2: u64)
    requires
        s.wf(),
        t1 < s.config.temp_fan_start_speed,
        t2 < s.config.temp_fan_start_speed,
        s.temp_last_interval <= now1 <= now2,
        now2 - s.temp_last_interval <= s.config.throttle_ms,
    ensures
        s.cycle(t1, now1).cycle(t2, now2).new_speedf == s.cycle(t1, now1).new_speedf,
{
}

/// Above the band the command is full cooling and the next sampling
/// interval is ten seconds, whatever the state was.
pub proof fn lemma_hot_forces_full_cooling(s: FanController, t: u8, now: u64)
    requires
        s.wf(),
        t > s.config.temp_fan_max_speed,
    ensures
        s.cycle(t, now).new_speedf == FULL_COOLING,
        s.cycle(t, now).config.temp_interval_length_ms == HOT_INTERVAL_MS,
{
}

/// The speed curve gives full cooling at the top of the band.
pub proof fn lemma_fan_level_at_max(max: u8)
    ensures
        fan_level(max as int, max as int) == FULL_COOLING,
{
    let m = max as int;
    assert(-24 * (m - m) * (m + m) == 0) by (nonlinear_arith);
}

/// Every level of the speed curve is a command byte, and below the top of
/// the band the level does not fall as the distance to the top grows.
pub proof fn lemma_fan_level_monotone(t1: u8, t2: u8, max: u8)
    requires
        t2 <= t1 <= max,
    ensures
        0 <= fan_level(t1 as int, max as int) <= fan_level(t2 as int, max as int) <= 255,
{
    let a = t1 as int;
    let b = t2 as int;
    let m = max as int;
    assert(-24 * (a - m) * (a + m) == 24 * (m * m - a * a)) by (nonlinear_arith);
    assert(-24 * (b - m) * (b + m) == 24 * (m * m - b * b)) by (nonlinear_arith);
    assert(a * a >= b * b) by (nonlinear_arith)
        requires
            0 <= b <= a,
    ;
    let x = 24 * (m * m - a * a);
    let y = 24 * (m * m - b * b);
    assert(x / 1000 <= y / 1000) by (nonlinear_arith)
        requires
            x <= y,
    ;
}

proof fn lemma_last_bucket_bound(t: int, lo: int, hi: int, steps: int, n: nat)
    ensures
        n > 0 ==> last_bucket(t, lo, hi, steps, n) < n,
        n == 0 ==> last_bucket(t, lo, hi, steps, n) == 0,
    decreases n,
{
    if n > 0 {
        lemma_last_bucket_bound(t, lo, hi, steps, (n - 1) as nat);
    }
}

proof fn lemma_last_bucket_monotone(t1: int, t2: int, lo: int, hi: int, steps: int, n: nat)
    requires
        t1 <= t2,
    ensures
        last_bucket(t1, lo, hi, steps, n) <= last_bucket(t2, lo, hi, steps, n),
    decreases n,
{
    if n > 0 {
        lemma_last_bucket_monotone(t1, t2, lo, hi, steps, (n - 1) as nat);
        lemma_last_bucket_bound(t1, lo, hi, steps, (n - 1) as nat);
    }
}

/// The interval curve never lengthens the sampling interval as the
/// temperature rises, and stays between 2 and `steps + 1` seconds.
pub proof fn lemma_interval_monotone(c: FanControllerConfig, t1: u8, t2: u8)
    requires
        c.wf(),
        t1 <= t2,
    ensures
        interval_secs(t2 as int, c.temp_fan_start_speed as int, c.temp_fan_max_speed as int, c.steps as int)
            <= interval_secs(t1 as int, c.temp_fan_start_speed as int, c.temp_fan_max_speed as int, c.steps as int),
        2 <= interval_secs(t2 as int, c.temp_fan_start_speed as int, c.temp_fan_max_speed as int, c.steps as int)
            <= c.steps + 1,
{
    let lo = c.temp_fan_start_speed as int;
    let hi = c.temp_fan_max_speed as int;
    let st = c.steps as int;
    lemma_last_bucket_monotone(t1 as int, t2 as int, lo, hi, st, st as nat);
    lemma_last_bucket_bound(t2 as int, lo, hi, st, st as nat);
}

} // verus!
