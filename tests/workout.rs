use pm5::workout::{WorkoutError, WorkoutRecorder, WorkoutSample};

fn recorder() -> WorkoutRecorder {
    WorkoutRecorder::with_start("user_abc123".to_string(), 42, 1_000)
}

#[test]
fn new_recorder_is_empty() {
    let r = WorkoutRecorder::new("someone".to_string());
    assert!(r.samples().is_empty());
    let other = WorkoutRecorder::new("someone".to_string());
    assert_ne!(r.workout_id(), other.workout_id());
    assert_eq!(r.generate_summary(None), Err(WorkoutError::NoSamples));
}

#[test]
fn default_sample_is_blank() {
    let s = WorkoutSample::default();
    assert_eq!(s.timestamp, 0);
    assert_eq!(s.elapsed_time_ms, 0);
    assert_eq!(s.heart_rate_bpm, None);
    assert_eq!(s.work_per_stroke_j, None);
}

#[test]
fn general_samples_carry_last_stroke() {
    let mut r = recorder();
    r.record_general_sample(5, 1000, 10, Some(120), Some(20), Some(120000));
    r.record_stroke_data(6, 2000, 20, 140, 800, 450, 380, 85, Some(240), Some(10));
    r.record_general_sample(7, 3000, 30, None, Some(22), None);
    let s = r.samples();
    assert_eq!(s.len(), 2);
    assert_eq!(s[0].timestamp, 5);
    assert_eq!(s[0].heart_rate_bpm, Some(120));
    assert_eq!(s[0].power_watts, None);
    assert_eq!(s[0].drive_length_cm, None);
    assert_eq!(s[1].timestamp, 7);
    assert_eq!(s[1].elapsed_time_ms, 3000);
    assert_eq!(s[1].distance_m, 30);
    assert_eq!(s[1].heart_rate_bpm, None);
    assert_eq!(s[1].stroke_rate, Some(22));
    assert_eq!(s[1].power_watts, Some(240));
    assert_eq!(s[1].calories, Some(10));
    assert_eq!(s[1].drive_length_cm, Some(140));
    assert_eq!(s[1].drive_time_ms, Some(800));
    assert_eq!(s[1].peak_drive_force_n, Some(450));
    assert_eq!(s[1].avg_drive_force_n, Some(380));
    assert_eq!(s[1].work_per_stroke_j, Some(85));
}

#[test]
fn add_general_sample_uses_the_clock() {
    let mut r = recorder();
    r.set_stroke_data(1, 2, 3, 4, 5, 6, 7, Some(8), Some(9));
    r.add_general_sample(10, 20, Some(100), None, None);
    let s = r.samples();
    assert_eq!(s.len(), 1);
    assert!(s[0].timestamp > 0);
    assert_eq!(s[0].elapsed_time_ms, 10);
    assert_eq!(s[0].power_watts, Some(8));
}

#[test]
fn summary_means_round_down() {
    let mut r = recorder();
    r.record_stroke_data(0, 0, 0, 140, 800, 450, 380, 85, Some(241), Some(10));
    r.record_general_sample(1, 1000, 10, Some(120), Some(20), None);
    r.record_general_sample(2, 2000, 20, Some(125), Some(21), None);
    r.record_stroke_data(0, 0, 0, 140, 800, 450, 380, 85, Some(250), Some(12));
    r.record_general_sample(3, 3000, 31, None, None, None);
    let s = r.summarize(Some("race".to_string()), 9_000).unwrap();
    assert_eq!(s.workout_id, 42);
    assert_eq!(s.user_id, "user_abc123");
    assert_eq!(s.start_time, 1_000);
    assert_eq!(s.end_time, 9_000);
    assert_eq!(s.duration_ms, 3000);
    assert_eq!(s.total_distance_m, 31);
    assert_eq!(s.total_calories, 12);
    assert_eq!(s.avg_heart_rate_bpm, Some(122));
    assert_eq!(s.max_heart_rate_bpm, Some(125));
    assert_eq!(s.avg_power_watts, Some(244));
    assert_eq!(s.avg_stroke_rate, Some(20));
    assert_eq!(s.avg_pace_ms_per_500m, None);
    assert_eq!(s.race_id, Some("race".to_string()));
    assert_eq!(s.race_position, None);
}

#[test]
fn summary_without_figures() {
    let mut r = recorder();
    r.record_general_sample(1, 500, 5, None, None, None);
    let s = r.summarize(None, 2_000).unwrap();
    assert_eq!(s.avg_heart_rate_bpm, None);
    assert_eq!(s.max_heart_rate_bpm, None);
    assert_eq!(s.avg_power_watts, None);
    assert_eq!(s.avg_stroke_rate, None);
    assert_eq!(s.total_calories, 0);
}

#[test]
fn summary_of_nothing() {
    assert_eq!(recorder().summarize(None, 5), Err(WorkoutError::NoSamples));
}

#[test]
fn summary_of_largest_figures() {
    let mut r = recorder();
    r.record_stroke_data(0, 0, 0, 0, 0, 0, 0, 0, Some(u16::MAX), Some(u16::MAX));
    for i in 0..3 {
        r.record_general_sample(i, u32::MAX, u32::MAX, Some(u8::MAX), Some(u8::MAX), Some(u32::MAX));
    }
    let s = r.generate_summary(None).unwrap();
    assert_eq!(s.avg_heart_rate_bpm, Some(255));
    assert_eq!(s.max_heart_rate_bpm, Some(255));
    assert_eq!(s.avg_power_watts, Some(u16::MAX));
    assert_eq!(s.avg_stroke_rate, Some(255));
    assert_eq!(s.duration_ms, u32::MAX);
    assert!(s.end_time >= s.start_time);
}
