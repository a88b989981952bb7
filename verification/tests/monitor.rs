use bits_client::{
    ApiError, BitsClient, BitsErrorContext, BitsJobError, BitsJobProgress, BitsJobState,
    BitsJobStatus, Error, FileLine, Guid, InProcessMonitor, PollOutcome, PollPlan, PollRequest,
};

fn status(state: BitsJobState, transferred: u64) -> BitsJobStatus {
    BitsJobStatus {
        state,
        progress: BitsJobProgress {
            total_bytes: Some(1000),
            transferred_bytes: transferred,
            total_files: 1,
            transferred_files: 0,
        },
        error: None,
    }
}

fn watched() -> (BitsClient, bits_client::BitsMonitorClient) {
    let mut client = BitsClient::new("Job".to_string(), "C:\\T".to_string(), || Ok(())).unwrap();
    let monitor = client.monitor_job(Guid(77), 750, |_| Ok(())).unwrap().unwrap();
    (client, monitor)
}

#[test]
fn get_status_times_out_before_the_first_update_then_delivers() {
    let (client, mut monitor) = watched();
    let report = status(BitsJobState::Connecting, 0);

    let early = monitor.get_status(&client, 100, |_| PollOutcome::Update {
        waited_millis: 750,
        status: report,
    });
    assert_eq!(early, Err(Error::Timeout));
    assert!(early.unwrap_err().is_timeout());

    let later = monitor.get_status(&client, 750, |_| PollOutcome::Update {
        waited_millis: 750,
        status: report,
    });
    assert_eq!(later, Ok(report));
}

#[test]
fn get_status_asks_with_interval_and_timeout() {
    let (client, mut monitor) = watched();
    let mut seen: Option<PollRequest> = None;
    let result = monitor.get_status(&client, 5000, |request| {
        seen = Some(request);
        PollOutcome::TimedOut
    });
    assert_eq!(result, Err(Error::Timeout));
    assert_eq!(
        seen,
        Some(PollRequest {
            job_name: "Job".to_string(),
            guid: Guid(77),
            interval_millis: 750,
            timeout_millis: 5000,
        })
    );
}

#[test]
fn get_status_reports_a_lost_connection_and_system_errors() {
    let (client, mut monitor) = watched();
    assert_eq!(
        monitor.get_status(&client, 5000, |_| PollOutcome::Disconnected),
        Err(Error::NotConnected)
    );
    let cause = ApiError {
        code: -2147023174,
        function: Some("GetState"),
        file_line: Some(FileLine { file: "monitor.rs", line: 12 }),
    };
    let failed = monitor.get_status(&client, 5000, |_| PollOutcome::Failed(cause));
    assert_eq!(failed, Err(Error::Api(cause)));
    assert!(!failed.unwrap_err().is_timeout());
    assert!(client.is_current(&monitor));
}

#[test]
fn get_status_keeps_no_deadline_between_calls() {
    let (client, mut monitor) = watched();
    let report = status(BitsJobState::Transferring, 400);
    let update = PollOutcome::Update { waited_millis: 10, status: report };
    assert_eq!(monitor.get_status(&client, 0, |_| update), Err(Error::Timeout));
    assert_eq!(monitor.get_status(&client, 10, |_| update), Ok(report));
    assert_eq!(monitor.get_status(&client, 9, |_| update), Err(Error::Timeout));
    assert_eq!(monitor.get_status(&client, u32::MAX, |_| update), Ok(report));
}

#[test]
fn an_update_at_the_deadline_is_in_time() {
    let report = status(BitsJobState::Suspended, 1);
    let update = PollOutcome::Update { waited_millis: 0, status: report };
    assert_eq!(InProcessMonitor::deliver(0, update), Ok(report));
    let update = PollOutcome::Update { waited_millis: u32::MAX, status: report };
    assert_eq!(InProcessMonitor::deliver(u32::MAX, update), Ok(report));
    assert_eq!(InProcessMonitor::deliver(u32::MAX - 1, update), Err(Error::Timeout));
    assert_eq!(InProcessMonitor::deliver(5, PollOutcome::TimedOut), Err(Error::Timeout));
    assert_eq!(InProcessMonitor::deliver(5, PollOutcome::Disconnected), Err(Error::NotConnected));
}

#[test]
fn a_status_carries_state_progress_and_error() {
    let (client, mut monitor) = watched();
    let report = BitsJobStatus {
        state: BitsJobState::Error,
        progress: BitsJobProgress {
            total_bytes: None,
            transferred_bytes: 12,
            total_files: 1,
            transferred_files: 0,
        },
        error: Some(BitsJobError { context: BitsErrorContext::RemoteFile, code: -2145844844 }),
    };
    let got = monitor
        .get_status(&client, 1, |_| PollOutcome::Update { waited_millis: 0, status: report })
        .unwrap();
    assert_eq!(got, report);
    assert_eq!(got.progress.percent(), None);
    assert_eq!(got.error.unwrap().context, BitsErrorContext::RemoteFile);
}

#[test]
fn a_planned_wait_ends_at_the_interval_or_at_the_timeout() {
    let request = |interval_millis: u32, timeout_millis: u32| PollRequest {
        job_name: "Job".to_string(),
        guid: Guid(1),
        interval_millis,
        timeout_millis,
    };
    assert_eq!(request(1000, 5000).plan(), PollPlan { wait_millis: 1000, fetch: true });
    assert_eq!(request(1000, 1000).plan(), PollPlan { wait_millis: 1000, fetch: true });
    assert_eq!(request(1000, 999).plan(), PollPlan { wait_millis: 999, fetch: false });
    assert_eq!(request(0, 0).plan(), PollPlan { wait_millis: 0, fetch: true });
    assert_eq!(request(u32::MAX, 0).plan(), PollPlan { wait_millis: 0, fetch: false });
}

#[test]
fn a_short_timeout_comes_before_the_first_update() {
    let (client, mut monitor) = watched();
    let report = status(BitsJobState::Transferring, 10);
    let service = |request: PollRequest| {
        let plan = request.plan();
        if plan.fetch {
            PollOutcome::Update { waited_millis: plan.wait_millis, status: report }
        } else {
            PollOutcome::TimedOut
        }
    };
    assert_eq!(monitor.get_status(&client, 749, service), Err(Error::Timeout));
    assert_eq!(monitor.get_status(&client, 750, service), Ok(report));
}
