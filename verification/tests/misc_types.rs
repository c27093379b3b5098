use rea_rs::misc_types::SampleAmount;
use std::time::Duration;

#[test]
fn test_sample_amount() {
    assert_eq!(SampleAmount::from_time(Duration::from_secs(1), 44100).get(), 44100);
}
