use sr_core::catalog::EngineSymbol;
use sr_core::job::{
    choose_model_path, temp_name, Action, Event, Job, JobOutcome, JobRequest, PollPayload,
    StepError, MAX_POLL_ATTEMPTS, POLL_INTERVAL_MILLIS, POLL_SLOT, TASK_PRIORITY,
};

fn request(cpu: bool, model: &str) -> JobRequest {
    JobRequest {
        input: "in.png".to_string(),
        output: "out.webp".to_string(),
        model: model.to_string(),
        gpu_id: 3,
        cpu,
        model_path: None,
        fallback_model_path: None,
    }
}

fn table() -> Vec<EngineSymbol> {
    vec![
        EngineSymbol { name: "init".to_string(), value: None },
        EngineSymbol { name: "MODEL_WAIFU2X_CUNET_UP2X".to_string(), value: Some(42) },
    ]
}

fn step(job: Job, event: Event) -> (Job, Action) {
    job.step(event).unwrap()
}

/// Runs a job up to the poll of a task that the engine accepted.
fn polling_job() -> Job {
    let (job, action) = Job::start(request(false, "waifu2x-cunet-up2x"));
    assert!(matches!(action, Action::Init));
    let (job, action) = step(job, Event::Code(0));
    assert!(matches!(action, Action::ConfigureGpu { gpu_id: 3 }));
    let (job, action) = step(job, Event::Code(0));
    assert!(matches!(action, Action::EnumerateSymbols));
    let (job, action) = step(job, Event::Symbols(table()));
    assert!(matches!(&action, Action::CheckInput { path } if path == "in.png"));
    let (job, action) = step(job, Event::InputFound(true));
    assert!(matches!(&action, Action::ReadInput { path } if path == "in.png"));
    let (job, action) = step(job, Event::InputBytes(vec![1, 2, 3]));
    match action {
        Action::AddTask { task } => {
            assert_eq!(task.image_bytes, vec![1, 2, 3]);
            assert_eq!(task.model_id, 42);
            assert_eq!(task.priority, 1);
            assert_eq!(TASK_PRIORITY, 1);
        }
        other => panic!("{:?}", other),
    }
    let (job, action) = step(job, Event::Code(1));
    assert!(matches!(action, Action::Poll { slot: 0 }));
    assert_eq!(POLL_SLOT, 0);
    job
}

#[test]
fn scenario_successful_job_reports_elapsed_time() {
    let elapsed = format!("{:.2}", 1234.5f32);
    assert_eq!(elapsed, "1234.50");
    let job = polling_job();
    let payload = PollPayload {
        output: Some(vec![9, 8, 7]),
        format: "webp".to_string(),
        result_id: 17,
        elapsed,
    };
    let (job, action) = step(job, Event::Polled(Some(payload)));
    match action {
        Action::WriteFile { path, bytes } => {
            assert_eq!(path, "17.webp");
            assert_eq!(bytes, vec![9, 8, 7]);
        }
        other => panic!("{:?}", other),
    }
    let (job, action) = step(job, Event::Done);
    assert!(matches!(&action, Action::Rename { from, to } if from == "17.webp" && to == "out.webp"));
    let (job, action) = step(job, Event::Done);
    assert!(matches!(action, Action::Stop));
    assert!(!job.is_finished());
    let (job, action) = step(job, Event::Done);
    assert!(job.is_finished());
    match action {
        Action::Finish { outcome } => {
            assert!(outcome.success());
            assert_eq!(outcome.message(), "1234.50");
            assert_eq!(outcome.report(), Ok((true, "1234.50".to_string())));
        }
        other => panic!("{:?}", other),
    }
    assert_eq!(job.step(Event::Done).err(), Some(StepError::Finished));
}

#[test]
fn poll_bound_is_sixty_polls_and_one_stop() {
    let mut job = polling_job();
    let mut polls = 1;
    let mut sleeps = 0;
    let mut stops = 0;
    let outcome = loop {
        // the pending action is a poll: nothing is ready
        let (next, action) = step(job, Event::Polled(None));
        assert!(matches!(action, Action::Sleep { millis: 500 }));
        sleeps += 1;
        let (next, action) = step(next, Event::Done);
        match action {
            Action::Poll { slot: 0 } => {
                polls += 1;
                job = next;
            }
            Action::Stop => {
                stops += 1;
                let (end, action) = step(next, Event::Done);
                assert!(end.is_finished());
                match action {
                    Action::Finish { outcome } => break outcome,
                    other => panic!("{:?}", other),
                }
            }
            other => panic!("{:?}", other),
        }
    };
    assert_eq!(polls, 60);
    assert_eq!(sleeps, 60);
    assert_eq!(stops, 1);
    assert_eq!(MAX_POLL_ATTEMPTS, 60);
    assert_eq!(POLL_INTERVAL_MILLIS, 500);
    assert!(matches!(outcome, JobOutcome::Timeout));
    assert_eq!(outcome.report(), Ok((false, "Processing timeout".to_string())));
}

#[test]
fn payload_without_output_is_not_ready() {
    let job = polling_job();
    let payload = PollPayload {
        output: None,
        format: "png".to_string(),
        result_id: 1,
        elapsed: "0.00".to_string(),
    };
    let (job, action) = step(job, Event::Polled(Some(payload)));
    assert!(matches!(action, Action::Sleep { millis: 500 }));
    let (_, action) = step(job, Event::Done);
    assert!(matches!(action, Action::Poll { slot: 0 }));
}

#[test]
fn gpu_init_failure_falls_back_to_cpu() {
    let (job, _) = Job::start(request(false, "waifu2x-cunet-up2x"));
    let (job, action) = step(job, Event::Code(-1));
    assert!(matches!(action, Action::QueryCpuCores));
    assert!(!job.is_finished());
    let (job, action) = step(job, Event::Code(8));
    assert!(matches!(action, Action::ConfigureCpu { cores: 8 }));
    let (job, action) = step(job, Event::Code(0));
    assert!(matches!(action, Action::EnumerateSymbols));
    assert!(!job.is_finished());
}

#[test]
fn cpu_request_takes_the_cpu_path() {
    let (job, _) = Job::start(request(true, "x"));
    let (_, action) = step(job, Event::Code(0));
    assert!(matches!(action, Action::QueryCpuCores));
}

#[test]
fn refused_device_configuration_is_fatal() {
    let (job, _) = Job::start(request(false, "x"));
    let (job, _) = step(job, Event::Code(-5));
    let (job, _) = step(job, Event::Code(4));
    let (job, action) = step(job, Event::Code(-1));
    assert!(!job.is_finished());
    assert!(!job.has_running_task());
    assert!(matches!(action, Action::Stop));
    let (job, action) = step(job, Event::Done);
    assert!(job.is_finished());
    match action {
        Action::Finish { outcome } => {
            assert!(matches!(outcome, JobOutcome::InitializationFailed));
            assert_eq!(outcome.report(), Ok((false, "Initialization failed".to_string())));
        }
        other => panic!("{:?}", other),
    }
}

#[test]
fn scenario_missing_input_ends_the_job_before_the_task() {
    let (job, _) = Job::start(request(false, "waifu2x-cunet-up2x"));
    let (job, _) = step(job, Event::Code(0));
    let (job, _) = step(job, Event::Code(0));
    let (job, action) = step(job, Event::Symbols(table()));
    assert!(matches!(action, Action::CheckInput { .. }));
    let (job, action) = step(job, Event::InputFound(false));
    assert!(job.is_finished());
    match action {
        Action::Finish { outcome } => {
            assert!(!outcome.success());
            assert_eq!(outcome.report(), Ok((false, "Input file not found: in.png".to_string())));
        }
        other => panic!("{:?}", other),
    }
}

#[test]
fn scenario_unknown_model_ends_the_job_before_submission() {
    let (job, _) = Job::start(request(false, "not-a-real-model"));
    let (job, _) = step(job, Event::Code(0));
    let (job, _) = step(job, Event::Code(0));
    let (job, action) = step(job, Event::Symbols(table()));
    assert!(job.is_finished());
    match action {
        Action::Finish { outcome } => {
            assert_eq!(outcome.report(), Ok((false, "Unknown model: not-a-real-model".to_string())));
        }
        other => panic!("{:?}", other),
    }
}

#[test]
fn refused_task_reports_the_engine_error_without_stop() {
    let (job, _) = Job::start(request(false, "waifu2x-cunet-up2x"));
    let (job, _) = step(job, Event::Code(0));
    let (job, _) = step(job, Event::Code(0));
    let (job, _) = step(job, Event::Symbols(table()));
    let (job, _) = step(job, Event::InputFound(true));
    let (job, _) = step(job, Event::InputBytes(Vec::new()));
    let (job, action) = step(job, Event::Code(0));
    assert!(matches!(action, Action::QueryLastError));
    let (job, action) = step(job, Event::Text("queue full".to_string()));
    assert!(job.is_finished());
    match action {
        Action::Finish { outcome } => {
            assert_eq!(outcome.report(), Ok((false, "Failed to add task: queue full".to_string())));
        }
        other => panic!("{:?}", other),
    }
}

/// Answers the stop that the job asked for, and returns the outcome.
fn stopped(job: Job, action: Action) -> JobOutcome {
    assert!(!job.is_finished());
    assert!(matches!(action, Action::Stop));
    let (job, action) = step(job, Event::Done);
    assert!(job.is_finished());
    assert_eq!(job.step(Event::Done).err(), Some(StepError::Finished));
    match action {
        Action::Finish { outcome } => outcome,
        other => panic!("{:?}", other),
    }
}

#[test]
fn failed_action_ends_the_job_with_its_error() {
    let job = polling_job();
    assert!(job.has_running_task());
    let (job, action) = step(job, Event::Failed("boom".to_string()));
    let outcome = stopped(job, action);
    assert!(!outcome.success());
    assert_eq!(outcome.message(), "boom");
    assert_eq!(outcome.report(), Err("boom".to_string()));
}

#[test]
fn failed_pause_stops_the_engine() {
    let (job, action) = step(polling_job(), Event::Polled(None));
    assert!(matches!(action, Action::Sleep { .. }));
    let (job, action) = step(job, Event::Failed("interrupted".to_string()));
    assert_eq!(stopped(job, action).report(), Err("interrupted".to_string()));
}

fn ready() -> Event {
    Event::Polled(Some(PollPayload {
        output: Some(vec![9, 8]),
        format: "webp".to_string(),
        result_id: 7,
        elapsed: "0.10".to_string(),
    }))
}

#[test]
fn failed_write_stops_the_engine() {
    let (job, action) = step(polling_job(), ready());
    assert!(matches!(&action, Action::WriteFile { path, .. } if path == "7.webp"));
    let (job, action) = step(job, Event::Failed("disk full".to_string()));
    assert_eq!(stopped(job, action).report(), Err("disk full".to_string()));
}

#[test]
fn failed_rename_stops_the_engine() {
    let (job, _) = step(polling_job(), ready());
    let (job, action) = step(job, Event::Done);
    assert!(matches!(&action, Action::Rename { from, to } if from == "7.webp" && to == "out.webp"));
    assert!(job.has_running_task());
    let (job, action) = step(job, Event::Failed("no such directory".to_string()));
    assert_eq!(stopped(job, action).report(), Err("no such directory".to_string()));
}

#[test]
fn failure_before_the_task_ends_the_job_at_once() {
    let (job, _) = Job::start(request(false, "x"));
    assert!(!job.has_running_task());
    let (job, action) = step(job, Event::Failed("no engine".to_string()));
    assert!(job.is_finished());
    match action {
        Action::Finish { outcome } => assert_eq!(outcome.report(), Err("no engine".to_string())),
        other => panic!("{:?}", other),
    }
}

#[test]
fn failed_stop_ends_the_job_with_its_error() {
    let (job, _) = step(polling_job(), Event::Failed("boom".to_string()));
    assert!(!job.has_running_task());
    let (job, action) = step(job, Event::Failed("stop failed".to_string()));
    assert!(job.is_finished());
    match action {
        Action::Finish { outcome } => assert_eq!(outcome.report(), Err("stop failed".to_string())),
        other => panic!("{:?}", other),
    }
}

#[test]
fn event_that_does_not_answer_is_refused() {
    let (job, _) = Job::start(request(false, "x"));
    assert_eq!(job.step(Event::Done).err(), Some(StepError::Unexpected));
    let job = polling_job();
    assert_eq!(job.step(Event::Code(1)).err(), Some(StepError::Unexpected));
}

#[test]
fn model_path_is_configured_first() {
    let mut with_path = request(false, "x");
    with_path.model_path = Some("/models".to_string());
    with_path.fallback_model_path = Some("/env".to_string());
    let (job, action) = Job::start(with_path);
    assert!(matches!(&action, Action::SetModelPath { path } if path == "/models"));
    let (_, action) = step(job, Event::Done);
    assert!(matches!(action, Action::Init));

    let mut with_env = request(false, "x");
    with_env.fallback_model_path = Some("/env".to_string());
    let (_, action) = Job::start(with_env);
    assert!(matches!(&action, Action::SetModelPath { path } if path == "/env"));

    assert_eq!(choose_model_path(None, None), None);
    assert_eq!(choose_model_path(Some("a".to_string()), None), Some("a".to_string()));
}

#[test]
fn temporary_name_is_number_dot_format() {
    assert_eq!(temp_name(17, "webp"), "17.webp");
    assert_eq!(temp_name(-4, "png"), "-4.png");
    assert_eq!(temp_name(0, ""), "0.");
}
