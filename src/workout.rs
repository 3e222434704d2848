use vstd::prelude::*;

verus! {

/// One row of a recorded workout.
#[derive(Debug, Clone, Copy, PartialEq, Eq, Structural)]
pub struct WorkoutSample {
    /// Wall-clock time of the sample, in nanoseconds since the Unix epoch.
    pub timestamp: i128,
    pub elapsed_time_ms: u32,
    pub distance_m: u32,
    pub heart_rate_bpm: Option<u8>,
    pub power_watts: Option<u16>,
    pub stroke_rate: Option<u8>,
    pub pace_ms_per_500m: Option<u32>,
    pub calories: Option<u16>,
    pub drive_length_cm: Option<u16>,
    pub drive_time_ms: Option<u16>,
    pub peak_drive_force_n: Option<u16>,
    pub avg_drive_force_n: Option<u16>,
    pub work_per_stroke_j: Option<u16>,
}

/// The sample with every number zero and every optional figure absent.
pub open spec fn blank_sample() -> WorkoutSample {
    WorkoutSample {
        timestamp: 0,
        elapsed_time_ms: 0,
        distance_m: 0,
        heart_rate_bpm: None,
        power_watts: None,
        stroke_rate: None,
        pace_ms_per_500m: None,
        calories: None,
        drive_length_cm: None,
        drive_time_ms: None,
        peak_drive_force_n: None,
        avg_drive_force_n: None,
        work_per_stroke_j: None,
    }
}

impl Default for WorkoutSample {
    fn default() -> (r: WorkoutSample)
        ensures
            r == blank_sample(),
    {
        WorkoutSample {
            timestamp: 0,
            elapsed_time_ms: 0,
            distance_m: 0,
            heart_rate_bpm: None,
            power_watts: None,
            stroke_rate: None,
            pace_ms_per_500m: None,
            calories: None,
            drive_length_cm: None,
            drive_time_ms: None,
            peak_drive_force_n: None,
            avg_drive_force_n: None,
            work_per_stroke_j: None,
        }
    }
}

/// A general-status sample: the figures given, with the stroke figures of
/// the last stroke sample carried over.
pub open spec fn general_sample(
    last_stroke: WorkoutSample,
    timestamp: i128,
    elapsed_time_ms: u32,
    distance_m: u32,
    heart_rate_bpm: Option<u8>,
    stroke_rate: Option<u8>,
    pace_ms_per_500m: Option<u32>,
) -> WorkoutSample {
    WorkoutSample {
        timestamp,
        elapsed_time_ms,
        distance_m,
        heart_rate_bpm,
        stroke_rate,
        pace_ms_per_500m,
        power_watts: last_stroke.power_watts,
        calories: last_stroke.calories,
        drive_length_cm: last_stroke.drive_length_cm,
        drive_time_ms: last_stroke.drive_time_ms,
        peak_drive_force_n: last_stroke.peak_drive_force_n,
        avg_drive_force_n: last_stroke.avg_drive_force_n,
        work_per_stroke_j: last_stroke.work_per_stroke_j,
    }
}

/// A stroke sample: the stroke figures given, with no heart rate, stroke
/// rate or pace.
pub open spec fn stroke_sample(
    timestamp: i128,
    elapsed_time_ms: u32,
    distance_m: u32,
    drive_length_cm: u16,
    drive_time_ms: u16,
    peak_drive_force_n: u16,
    avg_drive_force_n: u16,
    work_per_stroke_j: u16,
    power_watts: Option<u16>,
    calories: Option<u16>,
) -> WorkoutSample {
    WorkoutSample {
        timestamp,
        elapsed_time_ms,
        distance_m,
        heart_rate_bpm: None,
        power_watts,
        stroke_rate: None,
        pace_ms_per_500m: None,
        calories,
        drive_length_cm: Some(drive_length_cm),
        drive_time_ms: Some(drive_time_ms),
        peak_drive_force_n: Some(peak_drive_force_n),
        avg_drive_force_n: Some(avg_drive_force_n),
        work_per_stroke_j: Some(work_per_stroke_j),
    }
}

/// Figures that describe a whole workout.
#[derive(Debug, Clone, PartialEq, Eq)]
pub struct WorkoutSummary {
    pub workout_id: u128,
    pub user_id: String,
    pub start_time: i128,
    pub end_time: i128,
    pub duration_ms: u32,
    pub total_distance_m: u32,
    pub total_calories: u16,
    pub avg_heart_rate_bpm: Option<u8>,
    pub max_heart_rate_bpm: Option<u8>,
    pub avg_power_watts: Option<u16>,
    pub avg_stroke_rate: Option<u8>,
    pub avg_pace_ms_per_500m: Option<u32>,
    pub race_id: Option<String>,
    pub race_position: Option<u16>,
}

/// Why a workout could not be summarised.
#[derive(Debug, Clone, Copy, PartialEq, Eq, Structural)]
pub enum WorkoutError {
    /// No sample has been recorded.
    NoSamples,
}

/// The sum of the figures present in `v`.
pub open spec fn present_sum(v: Seq<Option<int>>) -> int
    decreases v.len(),
{
    if v.len() == 0 {
        0
    } else {
        present_sum(v.drop_last()) + match v.last() {
            Some(x) => x,
            None => 0,
        }
    }
}

/// How many figures are present in `v`.
pub open spec fn present_count(v: Seq<Option<int>>) -> nat
    decreases v.len(),
{
    if v.len() == 0 {
        0
    } else {
        present_count(v.drop_last()) + if v.last() is Some {
            1nat
        } else {
            0nat
        }
    }
}

/// The largest figure present in `v`, if any is.
pub open spec fn present_max(v: Seq<Option<int>>) -> Option<int>
    decreases v.len(),
{
    if v.len() == 0 {
        None
    } else {
        match (present_max(v.drop_last()), v.last()) {
            (m, None) => m,
            (None, Some(x)) => Some(x),
            (Some(m), Some(x)) => Some(if x > m { x } else { m }),
        }
    }
}

/// The mean of the figures present in `v`, rounded down; `None` where none is.
pub open spec fn present_mean(v: Seq<Option<int>>) -> Option<int> {
    if present_count(v) == 0 {
        None
    } else {
        Some(present_sum(v) / (present_count(v) as int))
    }
}

pub open spec fn heart_rates(s: Seq<WorkoutSample>) -> Seq<Option<int>> {
    s.map_values(|w: WorkoutSample| byte_figure(w.heart_rate_bpm))
}

pub open spec fn powers(s: Seq<WorkoutSample>) -> Seq<Option<int>> {
    s.map_values(|w: WorkoutSample| opt_int(w.power_watts))
}

pub open spec fn stroke_rates(s: Seq<WorkoutSample>) -> Seq<Option<int>> {
    s.map_values(|w: WorkoutSample| byte_figure(w.stroke_rate))
}

pub open spec fn byte_figure(v: Option<u8>) -> Option<int> {
    match v {
        Some(x) => Some(x as int),
        None => None,
    }
}

pub open spec fn opt_int(v: Option<u16>) -> Option<int> {
    match v {
        Some(x) => Some(x as int),
        None => None,
    }
}

/// Running totals of one optional figure.
struct Tally {
    sum: u128,
    count: u64,
    max: Option<u16>,
}

impl Tally {
    spec fn matches(self, v: Seq<Option<int>>, bound: int) -> bool {
        &&& self.sum == present_sum(v)
        &&& self.count == present_count(v)
        &&& opt_int(self.max) == present_max(v)
        &&& self.sum <= self.count * bound
        &&& self.count <= v.len()
        &&& self.max matches Some(m) ==> m <= bound
    }

    fn new(Ghost(bound): Ghost<int>) -> (r: Tally)
        requires
            0 <= bound,
        ensures
            r.matches(Seq::empty(), bound),
    {
        Tally { sum: 0, count: 0, max: None }
    }

    fn add(&mut self, x: Option<u16>, Ghost(v): Ghost<Seq<Option<int>>>, Ghost(bound): Ghost<int>)
        requires
            old(self).matches(v, bound),
            v.len() < 0xFFFF_FFFF_FFFF_FFFF,
            0 <= bound <= 0xFFFF,
            x matches Some(y) ==> y <= bound,
        ensures
            final(self).matches(v.push(opt_int(x)), bound),
    {
        let ghost w = v.push(opt_int(x));
        assert(w.drop_last() =~= v);
        if let Some(y) = x {
            proof {
                let c = self.count as int;
                let t = self.sum as int;
                assert(t + y <= (c + 1) * bound && (c + 1) * bound <= 0x1_0000_0000_0000_0000 * 0xFFFF)
                    by (nonlinear_arith)
                    requires
                        t <= c * bound,
                        y <= bound,
                        0 <= c < 0xFFFF_FFFF_FFFF_FFFF,
                        0 <= bound <= 0xFFFF,
                ;
            }
            self.sum = self.sum + y as u128;
            self.count = self.count + 1;
            self.max = match self.max {
                Some(m) => Some(if y > m { y } else { m }),
                None => Some(y),
            };
        }
    }

    /// The mean rounded down, which is at most `bound`.
    fn mean(&self, Ghost(v): Ghost<Seq<Option<int>>>, Ghost(bound): Ghost<int>) -> (r: Option<u16>)
        requires
            self.matches(v, bound),
            0 <= bound <= 0xFFFF,
        ensures
            opt_int(r) == present_mean(v),
            r matches Some(m) ==> m <= bound,
    {
        if self.count == 0 {
            None
        } else {
            let m = self.sum / (self.count as u128);
            proof {
                let s = self.sum as int;
                let c = self.count as int;
                assert(s / c <= bound) by (nonlinear_arith)
                    requires
                        s <= c * bound,
                        c > 0,
                        s >= 0,
                ;
            }
            Some(m as u16)
        }
    }
}

/// Collects the samples of one workout.
pub struct WorkoutRecorder {
    workout_id: u128,
    user_id: String,
    start_time: i128,
    last_stroke_sample: WorkoutSample,
    samples: Vec<WorkoutSample>,
}

/// Relies on uuid's `Uuid::now_v7`: a fresh identifier built from the clock
/// and random bits. Nothing is promised of its value.
#[verifier::external_body]
fn fresh_workout_id() -> (r: u128) {
    uuid::Uuid::now_v7().as_u128()
}

/// Relies on time's `UtcDateTime::now` and `unix_timestamp_nanos`: the time
/// now, in nanoseconds since the Unix epoch. Nothing is promised of its value.
#[verifier::external_body]
fn now_unix_nanos() -> (r: i128) {
    time::UtcDateTime::now().unix_timestamp_nanos()
}

impl WorkoutRecorder {
    pub closed spec fn id(self) -> u128 {
        self.workout_id
    }

    pub closed spec fn user(self) -> Seq<char> {
        self.user_id@
    }

    pub closed spec fn started(self) -> i128 {
        self.start_time
    }

    /// The stroke figures that general samples carry over.
    pub closed spec fn last_stroke(self) -> WorkoutSample {
        self.last_stroke_sample
    }

    /// The samples recorded so far, oldest first.
    pub closed spec fn recorded(self) -> Seq<WorkoutSample> {
        self.samples@
    }

    /// A recorder for `user_id` with a fresh workout identifier, started now.
    pub fn new(user_id: String) -> (r: WorkoutRecorder)
        ensures
            r.user() == user_id@,
            r.recorded() == Seq::<WorkoutSample>::empty(),
            r.last_stroke() == blank_sample(),
    {
        let workout_id = fresh_workout_id();
        let start_time = now_unix_nanos();
        WorkoutRecorder::with_start(user_id, workout_id, start_time)
    }

    /// A recorder for `user_id` with the given identifier and start time.
    pub fn with_start(user_id: String, workout_id: u128, start_time: i128) -> (r: WorkoutRecorder)
        ensures
            r.id() == workout_id,
            r.user() == user_id@,
            r.started() == start_time,
            r.recorded() == Seq::<WorkoutSample>::empty(),
            r.last_stroke() == blank_sample(),
    {
        WorkoutRecorder {
            workout_id,
            user_id,
            start_time,
            last_stroke_sample: WorkoutSample::default(),
            samples: Vec::new(),
        }
    }

    pub fn workout_id(&self) -> (r: u128)
        ensures
            r == self.id(),
    {
        self.workout_id
    }

    /// The samples recorded so far, oldest first.
    pub fn samples(&self) -> (r: &Vec<WorkoutSample>)
        ensures
            r@ == self.recorded(),
    {
        &self.samples
    }

    /// Records a general-status sample taken now.
    pub fn add_general_sample(
        &mut self,
        elapsed_time_ms: u32,
        distance_m: u32,
        heart_rate_bpm: Option<u8>,
        stroke_rate: Option<u8>,
        pace_ms_per_500m: Option<u32>,
    )
        ensures
            final(self).recorded().len() == old(self).recorded().len() + 1,
            final(self).recorded().drop_last() == old(self).recorded(),
            final(self).recorded().last() == general_sample(
                old(self).last_stroke(),
                final(self).recorded().last().timestamp,
                elapsed_time_ms,
                distance_m,
                heart_rate_bpm,
                stroke_rate,
                pace_ms_per_500m,
            ),
            final(self).last_stroke() == old(self).last_stroke(),
            final(self).id() == old(self).id(),
            final(self).user() == old(self).user(),
            final(self).started() == old(self).started(),
    {
        let timestamp = now_unix_nanos();
        self.record_general_sample(
            timestamp,
            elapsed_time_ms,
            distance_m,
            heart_rate_bpm,
            stroke_rate,
            pace_ms_per_500m,
        );
        assert(self.samples@.drop_last() =~= old(self).samples@);
    }

    /// Records a general-status sample taken at `timestamp`.
    pub fn record_general_sample(
        &mut self,
        timestamp: i128,
        elapsed_time_ms: u32,
        distance_m: u32,
        heart_rate_bpm: Option<u8>,
        stroke_rate: Option<u8>,
        pace_ms_per_500m: Option<u32>,
    )
        ensures
            final(self).recorded() == old(self).recorded().push(
                general_sample(
                    old(self).last_stroke(),
                    timestamp,
                    elapsed_time_ms,
                    distance_m,
                    heart_rate_bpm,
                    stroke_rate,
                    pace_ms_per_500m,
                ),
            ),
            final(self).last_stroke() == old(self).last_stroke(),
            final(self).id() == old(self).id(),
            final(self).user() == old(self).user(),
            final(self).started() == old(self).started(),
    {
        let last = self.last_stroke_sample;
        self.samples.push(
            WorkoutSample {
                timestamp,
                elapsed_time_ms,
                distance_m,
                heart_rate_bpm,
                stroke_rate,
                pace_ms_per_500m,
                power_watts: last.power_watts,
                calories: last.calories,
                drive_length_cm: last.drive_length_cm,
                drive_time_ms: last.drive_time_ms,
                peak_drive_force_n: last.peak_drive_force_n,
                avg_drive_force_n: last.avg_drive_force_n,
                work_per_stroke_j: last.work_per_stroke_j,
            },
        );
    }

    /// Keeps the figures of a stroke taken now for the samples that follow.
    pub fn set_stroke_data(
        &mut self,
        elapsed_time_ms: u32,
        distance_m: u32,
        drive_length_cm: u16,
        drive_time_ms: u16,
        peak_drive_force_n: u16,
        avg_drive_force_n: u16,
        work_per_stroke_j: u16,
        power_watts: Option<u16>,
        calories: Option<u16>,
    )
        ensures
            final(self).last_stroke() == stroke_sample(
                final(self).last_stroke().timestamp,
                elapsed_time_ms,
                distance_m,
                drive_length_cm,
                drive_time_ms,
                peak_drive_force_n,
                avg_drive_force_n,
                work_per_stroke_j,
                power_watts,
                calories,
            ),
            final(self).recorded() == old(self).recorded(),
            final(self).id() == old(self).id(),
            final(self).user() == old(self).user(),
            final(self).started() == old(self).started(),
    {
        let timestamp = now_unix_nanos();
        self.record_stroke_data(
            timestamp,
            elapsed_time_ms,
            distance_m,
            drive_length_cm,
            drive_time_ms,
            peak_drive_force_n,
            avg_drive_force_n,
            work_per_stroke_j,
            power_watts,
            calories,
        );
    }

    /// Keeps the figures of a stroke taken at `timestamp` for the samples
    /// that follow.
    pub fn record_stroke_data(
        &mut self,
        timestamp: i128,
        elapsed_time_ms: u32,
        distance_m: u32,
        drive_length_cm: u16,
        drive_time_ms: u16,
        peak_drive_force_n: u16,
        avg_drive_force_n: u16,
        work_per_stroke_j: u16,
        power_watts: Option<u16>,
        calories: Option<u16>,
    )
        ensures
            final(self).last_stroke() == stroke_sample(
                timestamp,
                elapsed_time_ms,
                distance_m,
                drive_length_cm,
                drive_time_ms,
                peak_drive_force_n,
                avg_drive_force_n,
                work_per_stroke_j,
                power_watts,
                calories,
            ),
            final(self).recorded() == old(self).recorded(),
            final(self).id() == old(self).id(),
            final(self).user() == old(self).user(),
            final(self).started() == old(self).started(),
    {
        self.last_stroke_sample = WorkoutSample {
            timestamp,
            elapsed_time_ms,
            distance_m,
            heart_rate_bpm: None,
            power_watts,
            stroke_rate: None,
            pace_ms_per_500m: None,
            calories,
            drive_length_cm: Some(drive_length_cm),
            drive_time_ms: Some(drive_time_ms),
            peak_drive_force_n: Some(peak_drive_force_n),
            avg_drive_force_n: Some(avg_drive_force_n),
            work_per_stroke_j: Some(work_per_stroke_j),
        };
    }

    /// Summarises the workout, ending now.
    pub fn generate_summary(&self, race_id: Option<String>) -> (r: Result<
        WorkoutSummary,
        WorkoutError,
    >)
        ensures
            match r {
                Ok(s) => summary_of(*self, s, race_id, s.end_time),
                Err(e) => e == WorkoutError::NoSamples && self.recorded().len() == 0,
            },
    {
        let end_time = now_unix_nanos();
        self.summarize(race_id, end_time)
    }

    /// Summarises the workout, ending at `end_time`: the last sample gives
    /// duration, distance and calories; heart rate, power and stroke rate are
    /// averaged over the samples that carry them, rounded down.
    pub fn summarize(&self, race_id: Option<String>, end_time: i128) -> (r: Result<
        WorkoutSummary,
        WorkoutError,
    >)
        ensures
            self.recorded().len() == 0 <==> r is Err,
            match r {
                Ok(s) => summary_of(*self, s, race_id, end_time),
                Err(e) => e == WorkoutError::NoSamples,
            },
    {
        let n = self.samples.len();
        if n == 0 {
            return Err(WorkoutError::NoSamples);
        }
        let ghost all = self.samples@;
        let mut hr = Tally::new(Ghost(0xFF));
        let mut power = Tally::new(Ghost(0xFFFF));
        let mut rate = Tally::new(Ghost(0xFF));
        let mut i: usize = 0;
        assert(heart_rates(all.take(0)) =~= Seq::<Option<int>>::empty());
        assert(powers(all.take(0)) =~= Seq::<Option<int>>::empty());
        assert(stroke_rates(all.take(0)) =~= Seq::<Option<int>>::empty());
        while i < n
            invariant
                n == all.len(),
                all == self.samples@,
                i <= n,
                hr.matches(heart_rates(all.take(i as int)), 0xFF),
                power.matches(powers(all.take(i as int)), 0xFFFF),
                rate.matches(stroke_rates(all.take(i as int)), 0xFF),
            decreases n - i,
        {
            let w = self.samples[i];
            proof {
                assert(heart_rates(all.take(i + 1)) =~= heart_rates(all.take(i as int)).push(
                    byte_figure(w.heart_rate_bpm),
                ));
                assert(powers(all.take(i + 1)) =~= powers(all.take(i as int)).push(
                    opt_int(w.power_watts),
                ));
                assert(stroke_rates(all.take(i + 1)) =~= stroke_rates(all.take(i as int)).push(
                    byte_figure(w.stroke_rate),
                ));
            }
            let h = match w.heart_rate_bpm {
                Some(x) => Some(x as u16),
                None => None,
            };
            let s = match w.stroke_rate {
                Some(x) => Some(x as u16),
                None => None,
            };
            hr.add(h, Ghost(heart_rates(all.take(i as int))), Ghost(0xFF));
            power.add(w.power_watts, Ghost(powers(all.take(i as int))), Ghost(0xFFFF));
            rate.add(s, Ghost(stroke_rates(all.take(i as int))), Ghost(0xFF));
            i = i + 1;
        }
        proof {
            assert(all.take(n as int) =~= all);
        }
        let avg_hr = hr.mean(Ghost(heart_rates(all)), Ghost(0xFF));
        let avg_power = power.mean(Ghost(powers(all)), Ghost(0xFFFF));
        let avg_rate = rate.mean(Ghost(stroke_rates(all)), Ghost(0xFF));
        let last = self.samples[n - 1];
        Ok(
            WorkoutSummary {
                workout_id: self.workout_id,
                user_id: self.user_id.clone(),
                start_time: self.start_time,
                end_time,
                duration_ms: last.elapsed_time_ms,
                total_distance_m: last.distance_m,
                total_calories: match last.calories {
                    Some(c) => c,
                    None => 0,
                },
                avg_heart_rate_bpm: match avg_hr {
                    Some(m) => Some(m as u8),
                    None => None,
                },
                max_heart_rate_bpm: match hr.max {
                    Some(m) => Some(m as u8),
                    None => None,
                },
                avg_power_watts: avg_power,
                avg_stroke_rate: match avg_rate {
                    Some(m) => Some(m as u8),
                    None => None,
                },
                avg_pace_ms_per_500m: None,
                race_id,
                race_position: None,
            },
        )
    }
}

/// Whether `s` summarises the samples of `rec` for a workout ending at
/// `end_time`.
pub open spec fn summary_of(
    rec: WorkoutRecorder,
    s: WorkoutSummary,
    race_id: Option<String>,
    end_time: i128,
) -> bool {
    let v = rec.recorded();
    let last = v.last();
    &&& v.len() > 0
    &&& s.workout_id == rec.id()
    &&& s.user_id@ == rec.user()
    &&& s.start_time == rec.started()
    &&& s.end_time == end_time
    &&& s.duration_ms == last.elapsed_time_ms
    &&& s.total_distance_m == last.distance_m
    &&& s.total_calories == match last.calories {
        Some(c) => c,
        None => 0,
    }
    &&& byte_figure(s.avg_heart_rate_bpm) == present_mean(heart_rates(v))
    &&& byte_figure(s.max_heart_rate_bpm) == present_max(heart_rates(v))
    &&& opt_int(s.avg_power_watts) == present_mean(powers(v))
    &&& byte_figure(s.avg_stroke_rate) == present_mean(stroke_rates(v))
    &&& s.avg_pace_ms_per_500m is None
    &&& s.race_id == race_id
    &&& s.race_position is None
}

} // verus!
