use audio_bicycle::backoff::{BackOff, BASE_DELAY_MS, RECOVERY_TIME_MS};
use audio_bicycle::receiver::ReceiverError;
use audio_bicycle::service::{
    classify_outcome, is_restartable_error, AudioBicycle, AudioBicycleError, LogVerbosity,
    ServiceDirective,
};
use audio_bicycle::transmitter::TransmitterError;

#[test]
fn backoff_grows_towards_cap() {
    let mut backoff = BackOff::new(0);
    let mut now: u64 = 0;
    let mut last: u64 = 0;
    let mut delays: Vec<u64> = Vec::new();
    for _ in 0..12 {
        let delay = backoff.back_off(now);
        now += delay; // sleep
        backoff.record_attempt(now);
        now += 10; // the next failure comes quickly
        assert!(delay >= last, "delays must never shrink");
        last = delay;
        delays.push(delay);
    }
    // three consecutive quick failures: strictly non-decreasing from the base
    assert_eq!(&delays[..3], &[1000, 1000, 2000]);
    // the full expected progression of floor(1.5^k) seconds
    assert_eq!(
        delays,
        vec![1000, 1000, 2000, 3000, 5000, 7000, 11000, 17000, 25000, 38000, 57000, 57000]
    );
    // saturated near 1.5^10 times the base
    assert_eq!(last, 57 * BASE_DELAY_MS);
}

#[test]
fn backoff_resets_after_recovery_time() {
    let mut backoff = BackOff::new(0);
    let mut now: u64 = 0;
    for _ in 0..5 {
        let delay = backoff.back_off(now);
        now += delay;
        backoff.record_attempt(now);
        now += 1;
    }
    assert!(backoff.back_off(now) > BASE_DELAY_MS);
    backoff.record_attempt(now);
    // more than a minute of real working time since the attempt started
    now += RECOVERY_TIME_MS + 1;
    assert_eq!(backoff.back_off(now), BASE_DELAY_MS);
}

#[test]
fn backoff_sleep_does_not_count_as_recovery() {
    let mut backoff = BackOff::new(0);
    let mut now: u64 = 0;
    // drive the delay above the recovery window
    for _ in 0..11 {
        let delay = backoff.back_off(now);
        now += delay;
        backoff.record_attempt(now);
        now += 10;
    }
    // the last sleep alone was 57 s, but the attempt start was recorded
    // after waking, so only the 10 ms of working time count: no reset
    assert_eq!(backoff.back_off(now), 57 * BASE_DELAY_MS);
}

#[test]
fn restartable_errors() {
    assert!(is_restartable_error(&AudioBicycleError::Receiver(ReceiverError::SocketRead)));
    assert!(is_restartable_error(&AudioBicycleError::Receiver(ReceiverError::AudioChannelBroken)));
    assert!(is_restartable_error(&AudioBicycleError::Transmitter(TransmitterError::SocketWrite)));
    assert!(is_restartable_error(&AudioBicycleError::PulseAudio));
    assert!(!is_restartable_error(&AudioBicycleError::Config));
    assert!(!is_restartable_error(&AudioBicycleError::Socket));
}

#[test]
fn outcome_classification() {
    assert_eq!(classify_outcome(&Ok(())), ServiceDirective::ExitSuccess);
    assert_eq!(
        classify_outcome(&Err(AudioBicycleError::Receiver(ReceiverError::SocketRead))),
        ServiceDirective::RestartAfterBackOff
    );
    assert_eq!(
        classify_outcome(&Err(AudioBicycleError::PulseAudio)),
        ServiceDirective::RestartAfterBackOff
    );
    assert_eq!(classify_outcome(&Err(AudioBicycleError::Config)), ServiceDirective::ExitFailure);
    assert_eq!(classify_outcome(&Err(AudioBicycleError::Socket)), ServiceDirective::ExitFailure);
}

#[test]
fn verbosity_mapping() {
    assert_eq!(AudioBicycle { verbose: 0 }.log_verbosity(), LogVerbosity::Info);
    assert_eq!(AudioBicycle { verbose: 1 }.log_verbosity(), LogVerbosity::Debug);
    assert_eq!(AudioBicycle { verbose: 2 }.log_verbosity(), LogVerbosity::Trace);
    assert_eq!(AudioBicycle { verbose: 200 }.log_verbosity(), LogVerbosity::Trace);
}
