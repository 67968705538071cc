use qendercore_mqtt_adapter::time::TimeSpan;
use std::time::Duration;

fn pair(duration: Duration) -> TimeSpan {
    TimeSpan::new(duration.as_secs(), duration.subsec_nanos())
}

#[test]
fn lengths_behave_as_durations() {
    let samples = [
        Duration::ZERO,
        Duration::from_nanos(1),
        Duration::from_millis(999),
        Duration::from_millis(1500),
        Duration::new(7, 999_999_999),
        Duration::from_secs(3661),
        Duration::new(u64::MAX / 2, 500_000_000),
        Duration::MAX,
    ];
    for a in samples {
        assert_eq!(pair(a).as_secs(), a.as_secs());
        assert_eq!(pair(a).subsec_nanos(), a.subsec_nanos());
        assert_eq!(pair(a).doubled(), pair(a.saturating_mul(2)));
        for b in samples {
            assert_eq!(pair(a).is_shorter(&pair(b)), a < b);
            assert_eq!(pair(a).shorter(&pair(b)), pair(a.min(b)));
            assert_eq!(pair(a).plus(&pair(b)), pair(a.saturating_add(b)));
            if b <= a {
                assert_eq!(pair(a).minus(&pair(b)), pair(a - b));
            }
        }
    }
    assert_eq!(TimeSpan::from_millis(1500), pair(Duration::from_millis(1500)));
    assert_eq!(TimeSpan::from_secs(2), pair(Duration::from_secs(2)));
}
