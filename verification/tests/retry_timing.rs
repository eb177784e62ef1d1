//! Tests that drive the retry engine with a real timer: the engine decides,
//! the test performs the attempts and waits out the returned delays.

use std::sync::Mutex;
use std::time::{Duration, Instant};

use retry_downloader::{
    AttemptOutcome, FileDownloadRetryPolicy, FileDownloaderUri, FileUri, RetryDownloader,
    RetryExhaustedError, RetryStep,
};

fn new_runtime() -> tokio::runtime::Runtime {
    tokio::runtime::Builder::new_current_thread()
        .enable_time()
        .build()
        .expect("the timer runtime should build")
}

fn location() -> FileDownloaderUri {
    FileDownloaderUri::FileUri(FileUri("http://whatever/00001.tar.gz".to_string()))
}

/// Perform one download request: invoke `attempt` for each try and wait out
/// each delay the engine asks for.
async fn drive<F: FnMut() -> AttemptOutcome>(
    downloader: &RetryDownloader,
    uri: &FileDownloaderUri,
    mut attempt: F,
) -> Result<(), RetryExhaustedError> {
    let mut run = downloader.start();
    loop {
        assert!(!run.is_finished());
        let outcome = attempt();
        match run.record_attempt(uri, outcome) {
            RetryStep::Succeeded => return Ok(()),
            RetryStep::Exhausted(error) => return Err(error),
            RetryStep::RetryAfter(delay) => tokio::time::sleep(delay).await,
        }
    }
}

#[test]
fn should_delay_between_retries() {
    let rt = new_runtime();
    let delay = Duration::from_millis(50);
    let retry_downloader = RetryDownloader::new(FileDownloadRetryPolicy {
        attempts: 4,
        delay_between_attempts: delay,
    });
    let uri = location();
    let mut nb_calls: u32 = 0;

    let start = Instant::now();
    rt.block_on(drive(&retry_downloader, &uri, || {
        nb_calls += 1;
        AttemptOutcome::Failure
    }))
    .expect_err("An error should be returned when all download attempts fail");
    let duration = start.elapsed();

    assert_eq!(4, nb_calls);
    println!("Duration: {:?}", duration);
    assert!(
        duration >= delay * 3,
        "Duration should be at least 3 times the delay ({}ms) but was {}ms",
        delay.as_millis() * 3,
        duration.as_millis()
    );
    assert!(
        duration < delay * 4,
        "Duration should be less than 4 times the delay ({}ms) but was {}ms",
        delay.as_millis() * 4,
        duration.as_millis()
    );
}

#[test]
fn compute_time_when_sleeping() {
    let rt = new_runtime();
    for time_to_sleep in [
        Duration::from_millis(5),
        Duration::from_millis(50),
        Duration::from_millis(100),
    ] {
        for _i in 0..10 {
            let start = Instant::now();
            rt.block_on(async { tokio::time::sleep(time_to_sleep).await });
            let duration = start.elapsed();
            println!(
                "Duration during sleep ({}): {:?}",
                time_to_sleep.as_millis(),
                duration
            );
        }
    }
}

#[test]
fn compute_time_when_interval_waiting() {
    let rt = new_runtime();
    rt.block_on(async {
        for time_to_sleep in [
            Duration::from_millis(5),
            Duration::from_millis(50),
            Duration::from_millis(100),
        ] {
            let mut interval = tokio::time::interval(time_to_sleep);
            for _i in 0..10 {
                let start = Instant::now();
                interval.tick().await;
                let duration = start.elapsed();
                println!(
                    "Duration during tick ({}): {:?}",
                    time_to_sleep.as_millis(),
                    duration
                );
            }
        }
    });
}

struct MyFileDownloader {
    expected_delay_between_retry: Duration,
    nb_attempts: Mutex<i32>,
    last_start_attempt: Mutex<Option<Instant>>,
}

impl MyFileDownloader {
    fn new(expected_delay_between_retry: Duration) -> Self {
        Self {
            expected_delay_between_retry,
            nb_attempts: Mutex::new(0),
            last_start_attempt: Mutex::new(None),
        }
    }

    fn download_unpack(&self) -> AttemptOutcome {
        let mut last_start_attempt = self.last_start_attempt.lock().unwrap();
        if let Some(last_start_attempt) = *last_start_attempt {
            let duration = last_start_attempt.elapsed();
            assert!(duration >= self.expected_delay_between_retry);
            assert!(duration < 2 * self.expected_delay_between_retry);
            println!("  Duration to unpack in MyFileDownloader: {:?}", duration);
        }
        *last_start_attempt = Some(Instant::now());

        let mut attempts = self.nb_attempts.lock().unwrap();
        *attempts += 1;

        AttemptOutcome::Failure
    }
}

#[test]
fn should_delay_between_retries_with_my_file_downloader() {
    let rt = new_runtime();
    let delay = Duration::from_millis(50);
    let mock_file_downloader = MyFileDownloader::new(delay);

    let retry_downloader = RetryDownloader::new(FileDownloadRetryPolicy {
        attempts: 4,
        delay_between_attempts: delay,
    });
    let uri = location();

    rt.block_on(drive(&retry_downloader, &uri, || {
        mock_file_downloader.download_unpack()
    }))
    .expect_err("An error should be returned when all download attempts fail");

    assert_eq!(4, *mock_file_downloader.nb_attempts.lock().unwrap());
}

#[test]
fn scenario_always_failing_four_attempts_reports_four_attempts() {
    let rt = new_runtime();
    let delay = Duration::from_millis(50);
    let retry_downloader = RetryDownloader::new(FileDownloadRetryPolicy {
        attempts: 4,
        delay_between_attempts: delay,
    });
    let uri = location();
    let mut nb_calls: u32 = 0;

    let start = Instant::now();
    let error = rt
        .block_on(drive(&retry_downloader, &uri, || {
            nb_calls += 1;
            AttemptOutcome::Failure
        }))
        .expect_err("An error should be returned when all download attempts fail");
    let duration = start.elapsed();

    assert_eq!(4, nb_calls);
    assert!(duration >= Duration::from_millis(150));
    assert!(duration < Duration::from_millis(200));
    assert!(error.message().contains("4 attempts"));
    assert!(error.message().contains("http://whatever/00001.tar.gz"));
}

#[test]
fn scenario_two_failures_then_success_takes_three_invocations() {
    let rt = new_runtime();
    let retry_downloader = RetryDownloader::new(FileDownloadRetryPolicy {
        attempts: 3,
        delay_between_attempts: Duration::from_millis(10),
    });
    let uri = location();
    let mut nb_calls: u32 = 0;

    let start = Instant::now();
    rt.block_on(drive(&retry_downloader, &uri, || {
        nb_calls += 1;
        if nb_calls <= 2 {
            AttemptOutcome::Failure
        } else {
            AttemptOutcome::Success
        }
    }))
    .expect("the third attempt should succeed");
    let duration = start.elapsed();

    assert_eq!(3, nb_calls);
    assert!(duration >= Duration::from_millis(20));
}

#[test]
fn scenario_single_attempt_fails_without_any_delay() {
    let rt = new_runtime();
    let retry_downloader = RetryDownloader::new(FileDownloadRetryPolicy {
        attempts: 1,
        delay_between_attempts: Duration::from_secs(3600),
    });
    let uri = location();
    let mut nb_calls: u32 = 0;

    let start = Instant::now();
    let error = rt
        .block_on(drive(&retry_downloader, &uri, || {
            nb_calls += 1;
            AttemptOutcome::Failure
        }))
        .expect_err("An error should be returned when the single attempt fails");
    let duration = start.elapsed();

    assert_eq!(1, nb_calls);
    assert!(duration < Duration::from_secs(1));
    assert_eq!(error.attempts, 1);
}

#[test]
fn success_on_first_attempt_incurs_no_delay() {
    let rt = new_runtime();
    let retry_downloader = RetryDownloader::new(FileDownloadRetryPolicy {
        attempts: 5,
        delay_between_attempts: Duration::from_secs(3600),
    });
    let uri = location();
    let mut nb_calls: u32 = 0;

    let start = Instant::now();
    rt.block_on(drive(&retry_downloader, &uri, || {
        nb_calls += 1;
        AttemptOutcome::Success
    }))
    .expect("the first attempt should succeed");
    let duration = start.elapsed();

    assert_eq!(1, nb_calls);
    assert!(duration < Duration::from_secs(1));
}
