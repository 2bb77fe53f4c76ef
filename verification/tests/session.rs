use chat_cli::model::{ModelResponse, ToolRequest};
use chat_cli::agent_loop::AgentLoopInput;
use chat_cli::event_bus::EventBus;
use chat_cli::events::{AgentEnvironmentEvent, JobCompletionResult, JobEvent, UserInteractionRequired, WorkerEvent, WorkerLifecycleState};
use chat_cli::metadata::MetadataValue;
use chat_cli::session::{job_outcome, JobOutcome, JobState, Session, WorkerJobCompletionType, MAX_INACTIVE_JOBS};

fn create_test_session() -> Session {
    Session::new(EventBus::default(), 1)
}

#[test]
fn test_worker_creation_publishes_event() {
    let mut session = create_test_session();
    let mut receiver = session.event_bus().subscribe();

    let worker_id = session.build_worker("test_worker".to_string());

    let event = receiver.try_recv().expect("Expected WorkerEvent::Created");
    match event {
        AgentEnvironmentEvent::Worker(WorkerEvent::Created { worker_id: id, name, .. }) => {
            assert_eq!(id, worker_id);
            assert_eq!(name, "test_worker");
        }
        _ => panic!("Expected WorkerEvent::Created"),
    }
}

#[test]
fn test_worker_deletion_publishes_event() {
    let mut session = create_test_session();
    let worker_id = session.build_worker("test_worker".to_string());

    let mut receiver = session.event_bus().subscribe();

    session.delete_worker(worker_id);

    let event = receiver.try_recv().expect("Expected WorkerEvent::Deleted");
    match event {
        AgentEnvironmentEvent::Worker(WorkerEvent::Deleted { worker_id: deleted_id, .. }) => {
            assert_eq!(deleted_id, worker_id);
        }
        _ => panic!("Expected WorkerEvent::Deleted"),
    }

    assert!(session.get_worker(worker_id).is_none());
}

#[test]
fn session_test_lifecycle_state_transitions() {
    let mut session = create_test_session();
    let worker_id = session.build_worker("test_worker".to_string());

    let mut receiver = session.event_bus().subscribe();

    session.set_worker_lifecycle_state(worker_id, WorkerLifecycleState::Busy);

    let event = receiver.try_recv().expect("Expected LifecycleStateChanged");
    match event {
        AgentEnvironmentEvent::Worker(WorkerEvent::LifecycleStateChanged { worker_id: wid, old_state, new_state, .. }) => {
            assert_eq!(wid, worker_id);
            assert_eq!(old_state, WorkerLifecycleState::Idle);
            assert_eq!(new_state, WorkerLifecycleState::Busy);
        }
        _ => panic!("Expected WorkerEvent::LifecycleStateChanged"),
    }

    assert_eq!(session.get_worker(worker_id).unwrap().lifecycle_state, WorkerLifecycleState::Busy);

    session.set_worker_lifecycle_state(worker_id, WorkerLifecycleState::IdleFailed);

    let event = receiver.try_recv().expect("Expected LifecycleStateChanged");
    match event {
        AgentEnvironmentEvent::Worker(WorkerEvent::LifecycleStateChanged { old_state, new_state, .. }) => {
            assert_eq!(old_state, WorkerLifecycleState::Busy);
            assert_eq!(new_state, WorkerLifecycleState::IdleFailed);
        }
        _ => panic!("Expected WorkerEvent::LifecycleStateChanged"),
    }
}

#[test]
fn test_multiple_workers_dont_interfere() {
    let mut session = create_test_session();
    let mut receiver = session.event_bus().subscribe();

    let worker1 = session.build_worker("worker1".to_string());
    let worker2 = session.build_worker("worker2".to_string());

    let event1 = receiver.try_recv().expect("Expected first Created event");
    let event2 = receiver.try_recv().expect("Expected second Created event");

    let id1 = event1.worker_id().expect("Expected worker_id");
    let id2 = event2.worker_id().expect("Expected worker_id");
    assert_ne!(id1, id2);

    session.set_worker_lifecycle_state(worker1, WorkerLifecycleState::Busy);

    assert_eq!(session.get_worker(worker1).unwrap().lifecycle_state, WorkerLifecycleState::Busy);
    assert_eq!(session.get_worker(worker2).unwrap().lifecycle_state, WorkerLifecycleState::Idle);
}

#[test]
fn test_has_active_jobs_no_jobs() {
    let session = create_test_session();
    assert!(!session.has_active_jobs());
}

#[test]
fn test_has_active_jobs_with_active_job() {
    let mut session = create_test_session();
    let worker = session.build_worker("test_worker".to_string());

    let input = AgentLoopInput {};
    let _job = session.run_task__agent_loop(worker, input);

    assert!(session.has_active_jobs());
}

#[test]
fn test_has_active_jobs_after_completion() {
    let mut session = create_test_session();
    let worker = session.build_worker("test_worker".to_string());
    let job = session.run_task__agent_loop(worker, AgentLoopInput {});
    session.job_finished(job.job_id);
    session.handle_job_completion(worker, JobOutcome::Completed);
    assert!(!session.has_active_jobs());
}

#[test]
fn job_launch_publishes_busy_then_started() {
    let mut session = create_test_session();
    let worker = session.build_worker("test_worker".to_string());
    let mut receiver = session.event_bus().subscribe();
    let job = session.run_task__agent_loop(worker, AgentLoopInput {});
    assert_eq!(job.worker_id, worker);
    match receiver.try_recv().expect("Expected LifecycleStateChanged to Busy") {
        AgentEnvironmentEvent::Worker(WorkerEvent::LifecycleStateChanged { new_state, .. }) => {
            assert_eq!(new_state, WorkerLifecycleState::Busy)
        }
        _ => panic!("Expected WorkerEvent::LifecycleStateChanged to Busy"),
    }
    match receiver.try_recv().expect("Expected JobStarted") {
        AgentEnvironmentEvent::Job(JobEvent::Started { worker_id, task_type, .. }) => {
            assert_eq!(worker_id, worker);
            assert_eq!(task_type, "AgentLoop");
        }
        _ => panic!("Expected JobEvent::Started"),
    }
    assert_eq!(session.get_job_counts(), (1, 0));
}

#[test]
fn job_completion_reports_success_and_idles_worker() {
    let mut session = create_test_session();
    let worker = session.build_worker("w".to_string());
    session.set_worker_lifecycle_state(worker, WorkerLifecycleState::Busy);
    let mut receiver = session.event_bus().subscribe();
    session.handle_job_completion(worker, JobOutcome::Completed);
    assert_eq!(session.get_worker(worker).unwrap().lifecycle_state, WorkerLifecycleState::Idle);
    let _ = receiver.try_recv().expect("Expected LifecycleStateChanged");
    match receiver.try_recv().expect("Expected JobCompleted") {
        AgentEnvironmentEvent::Job(JobEvent::Completed {
            worker_id,
            result: JobCompletionResult::Success { user_interaction_required, .. },
            ..
        }) => {
            assert_eq!(worker_id, worker);
            assert_eq!(user_interaction_required, UserInteractionRequired::NotRequired);
        }
        _ => panic!("Expected a successful JobCompleted"),
    }
}

#[test]
fn job_completion_with_tool_request_waits_for_approval() {
    let mut session = create_test_session();
    let worker = session.build_worker("w".to_string());
    session.set_task_metadata_at(
        0,
        "agent_loop.completion_state",
        MetadataValue::String("completed_with_tool_request".to_string()),
    );
    let mut receiver = session.event_bus().subscribe();
    session.handle_job_completion(worker, JobOutcome::Completed);
    let _ = receiver.try_recv();
    match receiver.try_recv().expect("Expected JobCompleted") {
        AgentEnvironmentEvent::Job(JobEvent::Completed {
            result: JobCompletionResult::Success { user_interaction_required, task_metadata },
            ..
        }) => {
            assert_eq!(user_interaction_required, UserInteractionRequired::ToolApproval);
            assert_eq!(task_metadata.len(), 1);
        }
        _ => panic!("Expected a successful JobCompleted"),
    }
}

#[test]
fn job_completion_failure_marks_worker_failed() {
    let mut session = create_test_session();
    let worker = session.build_worker("w".to_string());
    let mut receiver = session.event_bus().subscribe();
    session.handle_job_completion(worker, JobOutcome::Failed("boom".to_string()));
    assert_eq!(session.get_worker(worker).unwrap().lifecycle_state, WorkerLifecycleState::IdleFailed);
    let _ = receiver.try_recv();
    match receiver.try_recv().expect("Expected JobCompleted") {
        AgentEnvironmentEvent::Job(JobEvent::Completed { result: JobCompletionResult::Failed { error }, .. }) => {
            assert_eq!(error, "boom")
        }
        _ => panic!("Expected a failed JobCompleted"),
    }
}

#[test]
fn cleanup_keeps_running_jobs_and_three_latest_finished() {
    let mut session = create_test_session();
    let worker = session.build_worker("w".to_string());
    let mut finished = Vec::new();
    for _ in 0..5 {
        let job = session.run_task__agent_loop(worker, AgentLoopInput {});
        finished.push(job.job_id);
    }
    let running = session.run_task__agent_loop(worker, AgentLoopInput {});
    for id in finished.iter() {
        session.job_finished(*id);
    }
    assert_eq!(session.get_job_counts(), (1, 5));
    session.cleanup_inactive_jobs();
    assert_eq!(session.get_job_counts(), (1, MAX_INACTIVE_JOBS));
    assert!(session.has_active_jobs());
    session.job_finished(running.job_id);
    session.cleanup_inactive_jobs();
    assert_eq!(session.get_job_counts(), (0, 3));
    assert!(!session.has_active_jobs());
}

#[test]
fn cancel_worker_jobs_leaves_other_workers() {
    let mut session = create_test_session();
    let a = session.build_worker("a".to_string());
    let b = session.build_worker("b".to_string());
    let ja = session.run_task__agent_loop(a, AgentLoopInput {});
    let jb = session.run_task__agent_loop(b, AgentLoopInput {});
    session.cancel_worker_jobs(a);
    assert!(ja.cancellation_token.token().is_cancelled());
    assert!(!jb.cancellation_token.token().is_cancelled());
    session.cancel_all_jobs();
    assert!(jb.cancellation_token.token().is_cancelled());
}

#[test]
fn delete_worker_cancels_its_jobs() {
    let mut session = create_test_session();
    let a = session.build_worker("a".to_string());
    let job = session.run_task__agent_loop(a, AgentLoopInput {});
    session.delete_worker(a);
    assert!(job.cancellation_token.token().is_cancelled());
    assert_eq!(session.get_workers().len(), 0);
}

#[test]
fn push_input_message_reaches_worker() {
    let mut session = create_test_session();
    let a = session.build_worker("a".to_string());
    assert!(session.push_input_message(a, "hello".to_string()));
    assert_eq!(session.get_worker(a).unwrap().context_container.conversation_history.len(), 1);
    assert!(!session.push_input_message(a.wrapping_add(1), "x".to_string()));
}

#[test]
fn job_outcome_of_each_state() {
    assert!(matches!(job_outcome(JobState::Running), JobOutcome::Completed));
    assert!(matches!(job_outcome(JobState::Done(WorkerJobCompletionType::Normal, None)), JobOutcome::Completed));
    assert!(matches!(
        job_outcome(JobState::Done(WorkerJobCompletionType::Failed, Some("bad".to_string()))),
        JobOutcome::Failed(ref m) if m == "bad"
    ));
    assert!(matches!(
        job_outcome(JobState::Done(WorkerJobCompletionType::Failed, None)),
        JobOutcome::Failed(ref m) if m == "Job failed with unknown error"
    ));
    assert!(matches!(
        job_outcome(JobState::Done(WorkerJobCompletionType::Cancelled, None)),
        JobOutcome::Cancelled
    ));
}

#[test]
fn cancelled_job_is_reported_cancelled_and_worker_idles() {
    let mut session = create_test_session();
    let worker = session.build_worker("w".to_string());
    let job = session.run_task__agent_loop(worker, AgentLoopInput {});
    session.cancel_worker_jobs(worker);
    assert!(job.cancellation_token.token().is_cancelled());
    let mut receiver = session.event_bus().subscribe();
    session.job_finished(job.job_id);
    session.handle_job_completion(worker, job_outcome(JobState::Done(WorkerJobCompletionType::Cancelled, None)));
    assert_eq!(session.get_worker(worker).unwrap().lifecycle_state, WorkerLifecycleState::Idle);
    let _ = receiver.try_recv().expect("Expected LifecycleStateChanged");
    assert!(matches!(
        receiver.try_recv(),
        Ok(AgentEnvironmentEvent::Job(JobEvent::Completed { result: JobCompletionResult::Cancelled, .. }))
    ));
}

#[test]
fn agent_loop_round_with_tools_waits_for_approval() {
    let mut session = create_test_session();
    let worker = session.build_worker("w".to_string());
    session.push_input_message(worker, "go".to_string());
    let job = session.run_task__agent_loop(worker, AgentLoopInput {});
    session.agent_loop_finish(
        worker,
        job.job_id,
        ModelResponse {
            content: "using a tool".to_string(),
            tool_requests: vec![ToolRequest { tool_name: "t".to_string(), parameters: "{}".to_string() }],
        },
    );
    session.job_finished(job.job_id);
    let mut receiver = session.event_bus().subscribe();
    session.handle_job_completion(worker, JobOutcome::Completed);
    let _ = receiver.try_recv();
    assert!(matches!(
        receiver.try_recv(),
        Ok(AgentEnvironmentEvent::Job(JobEvent::Completed {
            result: JobCompletionResult::Success { user_interaction_required: UserInteractionRequired::ToolApproval, .. },
            ..
        }))
    ));
}
