use bits_client::{
    BitsClient, BitsProxyUsage, CancelJobFailure, CompleteJobFailure, Error, Guid,
    InProcessClient, JobRequest, MonitorId, MonitorJobFailure, PollOutcome, PollRequest,
    PriorityChange, PriorityState, ResumeJobFailure, SetJobPriorityFailure, SetPriorityRequest,
    SetUpdateIntervalFailure, StartJobFailure, StartJobRequest, SuspendJobFailure,
};

fn client() -> BitsClient {
    BitsClient::new("Updates".to_string(), "D:\\Cache\\".to_string(), || Ok(())).unwrap()
}

fn boost(guid: Guid) -> PriorityChange {
    PriorityChange { guid, foreground: true }
}

fn restore(guid: Guid) -> PriorityChange {
    PriorityChange { guid, foreground: false }
}

#[test]
fn new_client_has_its_scope_and_nothing_else() {
    let mut client = client();
    assert_eq!(client.job_name(), "Updates");
    assert_eq!(client.save_path_prefix(), "D:\\Cache\\");
    assert_eq!(client.monitors_created(), 0);
    assert_eq!(client.priority_state(Guid(1)), PriorityState::Idle);
    assert_eq!(client.update_interval(Guid(1)), None);
    assert!(client.take_priority_requests().is_empty());
}

#[test]
fn start_job_hands_the_scope_to_the_service() {
    let mut client = client();
    let mut seen: Option<StartJobRequest> = None;
    let result = client.start_job(
        "https://example.org/a.zip".to_string(),
        "a.zip".to_string(),
        BitsProxyUsage::Preconfig,
        250,
        |request| {
            seen = Some(request);
            Ok(Guid(9))
        },
    );
    let (success, monitor) = result.unwrap().unwrap();
    assert_eq!(success.guid, Guid(9));
    assert_eq!(monitor.guid(), Guid(9));
    assert_eq!(
        seen,
        Some(StartJobRequest {
            job_name: "Updates".to_string(),
            url: "https://example.org/a.zip".to_string(),
            save_path: "D:\\Cache\\a.zip".to_string(),
            proxy_usage: BitsProxyUsage::Preconfig,
        })
    );
    assert!(client.is_current(&monitor));
    assert_eq!(client.update_interval(Guid(9)), Some(250));
    assert_eq!(client.priority_state(Guid(9)), PriorityState::Boosted);
    assert_eq!(client.take_priority_requests(), vec![boost(Guid(9))]);
}

#[test]
fn start_job_failure_is_inner_and_changes_nothing() {
    let mut client = client();
    for failure in [StartJobFailure::ArgumentValidation, StartJobFailure::Service(-2145386480)] {
        let result = client.start_job(
            "ftp://nowhere".to_string(),
            "x".to_string(),
            BitsProxyUsage::NoProxy,
            1000,
            |_| Err(failure),
        );
        match result {
            Ok(Err(inner)) => assert_eq!(inner, failure),
            _ => panic!("the failure of the service is the inner result"),
        }
    }
    assert_eq!(client.monitors_created(), 0);
    assert!(client.take_priority_requests().is_empty());
}

#[test]
fn monitor_job_on_a_missing_job_is_an_inner_failure() {
    let mut client = client();
    let mut seen: Option<JobRequest> = None;
    let result = client.monitor_job(Guid(404), 1000, |request| {
        seen = Some(request);
        Err(MonitorJobFailure::NotFound)
    });
    match result {
        Ok(Err(failure)) => assert_eq!(failure, MonitorJobFailure::NotFound),
        Ok(Ok(_)) => panic!("no monitor for a job that is not there"),
        Err(_) => panic!("not a communication error"),
    }
    assert_eq!(seen, Some(JobRequest { job_name: "Updates".to_string(), guid: Guid(404) }));
    assert_eq!(client.priority_state(Guid(404)), PriorityState::Idle);
    assert_eq!(client.monitors_created(), 0);
    assert!(client.take_priority_requests().is_empty());

    match client.monitor_job(Guid(404), 1000, |_| Err(MonitorJobFailure::Service(-1))) {
        Ok(Err(failure)) => assert_eq!(failure, MonitorJobFailure::Service(-1)),
        _ => panic!("the failure of the service is the inner result"),
    }
}

#[test]
fn monitor_job_boosts_and_supersedes() {
    let mut client = client();
    let mut first = client.monitor_job(Guid(5), 1000, |_| Ok(())).unwrap().unwrap();
    assert!(client.is_current(&first));
    let second = client.monitor_job(Guid(5), 2000, |_| Ok(())).unwrap().unwrap();
    assert!(!client.is_current(&first));
    assert!(client.is_current(&second));
    assert_eq!(client.update_interval(Guid(5)), Some(2000));
    assert_eq!(client.monitors_created(), 2);
    assert_eq!(client.take_priority_requests(), vec![boost(Guid(5)), boost(Guid(5))]);

    let status = first.get_status(&client, 1000, |_| PollOutcome::TimedOut);
    assert_eq!(status, Err(Error::NotConnected));

    client.release(first);
    assert_eq!(client.priority_state(Guid(5)), PriorityState::Boosted);
    assert!(client.take_priority_requests().is_empty());

    client.release(second);
    assert_eq!(client.priority_state(Guid(5)), PriorityState::Idle);
    assert_eq!(client.take_priority_requests(), vec![restore(Guid(5))]);
}

#[test]
fn suspend_and_resume_forward_the_answer() {
    let mut client = client();
    let _monitor = client.monitor_job(Guid(3), 1000, |_| Ok(())).unwrap().unwrap();
    client.take_priority_requests();

    let mut seen: Option<JobRequest> = None;
    let suspended = client.suspend_job(Guid(3), |request| {
        seen = Some(request);
        Ok(())
    });
    assert_eq!(suspended, Ok(Ok(())));
    assert_eq!(seen, Some(JobRequest { job_name: "Updates".to_string(), guid: Guid(3) }));
    for failure in [
        SuspendJobFailure::NotFound,
        SuspendJobFailure::InvalidState,
        SuspendJobFailure::Service(-2145386473),
    ] {
        assert_eq!(client.suspend_job(Guid(3), |_| Err(failure)), Ok(Err(failure)));
    }

    assert_eq!(client.resume_job(Guid(3), |_| Ok(())), Ok(Ok(())));
    for failure in [
        ResumeJobFailure::NotFound,
        ResumeJobFailure::InvalidState,
        ResumeJobFailure::Service(7),
    ] {
        assert_eq!(client.resume_job(Guid(3), |_| Err(failure)), Ok(Err(failure)));
    }

    assert_eq!(client.priority_state(Guid(3)), PriorityState::Boosted);
    assert_eq!(client.update_interval(Guid(3)), Some(1000));
    assert!(client.take_priority_requests().is_empty());
}

#[test]
fn set_job_priority_asks_for_what_was_said() {
    let mut client = client();
    for foreground in [true, false] {
        let mut seen: Option<SetPriorityRequest> = None;
        let result = client.set_job_priority(Guid(8), foreground, |request| {
            seen = Some(request);
            Ok(())
        });
        assert_eq!(result, Ok(Ok(())));
        assert_eq!(
            seen,
            Some(SetPriorityRequest { job_name: "Updates".to_string(), guid: Guid(8), foreground })
        );
    }
    for failure in [SetJobPriorityFailure::NotFound, SetJobPriorityFailure::Service(5)] {
        assert_eq!(client.set_job_priority(Guid(8), true, |_| Err(failure)), Ok(Err(failure)));
    }
    assert_eq!(client.priority_state(Guid(8)), PriorityState::Idle);
    assert!(client.take_priority_requests().is_empty());
}

#[test]
fn set_update_interval_needs_a_monitor() {
    let mut client = client();
    assert_eq!(
        client.set_update_interval(Guid(2), 100),
        Ok(Err(SetUpdateIntervalFailure::NotFound))
    );
    let mut monitor = client.monitor_job(Guid(2), 1000, |_| Ok(())).unwrap().unwrap();
    assert_eq!(client.set_update_interval(Guid(2), 100), Ok(Ok(())));
    assert_eq!(client.update_interval(Guid(2)), Some(100));
    assert!(client.is_current(&monitor));
    assert_eq!(client.take_priority_requests(), vec![boost(Guid(2))]);

    let mut interval = 0;
    let _ = monitor.get_status(&client, 50, |request| {
        interval = request.interval_millis;
        PollOutcome::TimedOut
    });
    assert_eq!(interval, 100);
}

#[test]
fn stop_update_restores_once() {
    let mut client = client();
    assert_eq!(client.stop_update(Guid(6)), Ok(Err(SetUpdateIntervalFailure::NotFound)));
    assert!(client.take_priority_requests().is_empty());

    let mut monitor = client.monitor_job(Guid(6), 1000, |_| Ok(())).unwrap().unwrap();
    assert_eq!(client.stop_update(Guid(6)), Ok(Ok(())));
    assert_eq!(client.priority_state(Guid(6)), PriorityState::Idle);
    assert_eq!(client.take_priority_requests(), vec![boost(Guid(6)), restore(Guid(6))]);
    assert_eq!(
        monitor.get_status(&client, 1000, |_| PollOutcome::TimedOut),
        Err(Error::NotConnected)
    );

    assert_eq!(client.stop_update(Guid(6)), Ok(Err(SetUpdateIntervalFailure::NotFound)));
    assert_eq!(client.complete_job(Guid(6), |_| Ok(())), Ok(Ok(())));
    client.release(monitor);
    assert!(client.take_priority_requests().is_empty());
}

#[test]
fn complete_job_ends_the_monitor_whatever_the_service_says() {
    for answer in [
        Ok(()),
        Err(CompleteJobFailure::NotFound),
        Err(CompleteJobFailure::AlreadyCompleted),
        Err(CompleteJobFailure::Service(-2145386477)),
    ] {
        let mut client = client();
        let mut monitor = client.monitor_job(Guid(11), 1000, |_| Ok(())).unwrap().unwrap();
        let other = client.monitor_job(Guid(12), 1000, |_| Ok(())).unwrap().unwrap();
        client.take_priority_requests();

        let mut order = Vec::new();
        let result = client.complete_job(Guid(11), |request| {
            order.push(request.guid);
            answer
        });
        assert_eq!(result, Ok(answer));
        assert_eq!(order, vec![Guid(11)]);
        assert!(!client.is_current(&monitor));
        assert!(client.is_current(&other));
        assert_eq!(client.priority_state(Guid(11)), PriorityState::Idle);
        assert_eq!(client.priority_state(Guid(12)), PriorityState::Boosted);
        assert_eq!(client.take_priority_requests(), vec![restore(Guid(11))]);
        let status = monitor.get_status(&client, 60_000, |_| PollOutcome::TimedOut);
        assert_eq!(status, Err(Error::NotConnected));
    }
}

#[test]
fn cancel_job_ends_the_monitor_whatever_the_service_says() {
    for answer in [
        Ok(()),
        Err(CancelJobFailure::NotFound),
        Err(CancelJobFailure::AlreadyCompleted),
        Err(CancelJobFailure::Service(1)),
    ] {
        let mut client = client();
        let mut monitor = client.monitor_job(Guid(21), 1000, |_| Ok(())).unwrap().unwrap();
        client.take_priority_requests();
        assert_eq!(client.cancel_job(Guid(21), |_| answer), Ok(answer));
        assert!(!client.is_current(&monitor));
        assert_eq!(client.take_priority_requests(), vec![restore(Guid(21))]);
        let status = monitor.get_status(&client, 60_000, |_| PollOutcome::TimedOut);
        assert_eq!(status, Err(Error::NotConnected));
    }
}

#[test]
fn complete_job_without_a_monitor_asks_for_no_priority() {
    let mut client = client();
    assert_eq!(client.complete_job(Guid(30), |_| Ok(())), Ok(Ok(())));
    assert_eq!(client.cancel_job(Guid(31), |_| Ok(())), Ok(Ok(())));
    assert!(client.take_priority_requests().is_empty());
}

#[test]
fn priority_requests_come_out_in_order_and_once() {
    let mut client = client();
    let _a = client.monitor_job(Guid(1), 10, |_| Ok(())).unwrap().unwrap();
    let _b = client.monitor_job(Guid(2), 10, |_| Ok(())).unwrap().unwrap();
    assert_eq!(client.stop_update(Guid(1)), Ok(Ok(())));
    assert_eq!(
        client.take_priority_requests(),
        vec![boost(Guid(1)), boost(Guid(2)), restore(Guid(1))]
    );
    assert!(client.take_priority_requests().is_empty());
    assert_eq!(client.priority_state(Guid(2)), PriorityState::Boosted);
}

#[test]
fn requests_carry_the_scope_of_the_client() {
    let mut client =
        InProcessClient::new("Updates".to_string(), "D:\\Cache".to_string(), || Ok(())).unwrap();
    assert_eq!(
        client.job_request(Guid(1)),
        JobRequest { job_name: "Updates".to_string(), guid: Guid(1) }
    );
    assert_eq!(
        client.priority_request(Guid(1), true),
        SetPriorityRequest { job_name: "Updates".to_string(), guid: Guid(1), foreground: true }
    );
    assert_eq!(
        client.start_job_request(
            "https://example.org/p".to_string(),
            "p".to_string(),
            BitsProxyUsage::NoProxy
        ),
        StartJobRequest {
            job_name: "Updates".to_string(),
            url: "https://example.org/p".to_string(),
            save_path: "D:\\Cache\\p".to_string(),
            proxy_usage: BitsProxyUsage::NoProxy,
        }
    );

    let monitor = client.monitor_job(Guid(1), 30, |_| Ok(())).unwrap();
    assert_eq!(monitor.id(), MonitorId { guid: Guid(1), serial: 0 });
    assert_eq!(
        client.poll_request(&monitor, 10),
        Some(PollRequest {
            job_name: "Updates".to_string(),
            guid: Guid(1),
            interval_millis: 30,
            timeout_millis: 10,
        })
    );
    assert_eq!(client.stop_update(Guid(1)), Ok(()));
    assert_eq!(client.poll_request(&monitor, 10), None);

    let next = client.monitor_job(Guid(1), 30, |_| Ok(())).unwrap();
    assert_eq!(next.id(), MonitorId { guid: Guid(1), serial: 1 });
    assert_eq!(client.poll_request(&monitor, 10), None);
}
