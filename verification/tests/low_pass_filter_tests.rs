use synth_core::effects::low_pass_filter::LowPassFilter;
use synth_core::effects::low_pass_filter::CUTOFF_FREQUENCY_HZ;

#[test]
fn new_filter_is_disabled_with_zero_feedback() {
    let f = LowPassFilter::new();
    assert!(!f.filter_active());
    assert_eq!(f.filtered_value, 0);
}

#[test]
fn set_active_moves_only_the_flag() {
    let mut f = LowPassFilter::new();
    f.set_active(true);
    assert!(f.filter_active());
    assert_eq!(f.filtered_value, 0);
    f.set_active(false);
    assert!(!f.filter_active());
    assert_eq!(f.filtered_value, 0);
}

#[test]
fn active_filter_stores_feedback() {
    let mut f = LowPassFilter::new();
    f.set_active(true);
    f.store_filtered_value(0.5_f32.to_bits());
    assert_eq!(f.filtered_value, 0.5_f32.to_bits());
    assert_eq!(f32::from_bits(f.filtered_value), 0.5);
}

#[test]
fn inactive_filter_never_mutates_feedback() {
    let mut f = LowPassFilter::new();
    f.set_active(true);
    f.store_filtered_value(0.25_f32.to_bits());
    f.set_active(false);
    f.store_filtered_value(0.75_f32.to_bits());
    assert_eq!(f32::from_bits(f.filtered_value), 0.25);
}

#[test]
fn cutoff_is_below_nyquist() {
    assert!(CUTOFF_FREQUENCY_HZ > 0);
    assert!(CUTOFF_FREQUENCY_HZ * 2 < synth_core::waveforms::SAMPLE_RATE);
}
