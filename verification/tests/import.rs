use focus_timer::import::{
    classify_exit, message_for, ConversionOutcome, FailureReason, ImportJob, ImportRequest,
    ImportStatus, ImportTask, SubmitError,
};

fn request_for(url: &str) -> ImportRequest {
    ImportRequest {
        program: "yt-dlp".to_string(),
        arguments: vec![
            "-x".to_string(),
            "--audio-format".to_string(),
            "mp3".to_string(),
            "--quiet".to_string(),
            "--no-warnings".to_string(),
            "-o".to_string(),
            "bgm/%(title)s.%(ext)s".to_string(),
            url.to_string(),
        ],
    }
}

#[test]
fn new_task_is_idle_and_ready() {
    let task = ImportTask::new();
    assert_eq!(
        task.poll(),
        ImportJob {
            source_url: String::new(),
            status: ImportStatus::Idle,
            message: "Ready".to_string()
        }
    );
    assert!(!task.is_active());
}

#[test]
fn submit_starts_a_job_and_says_what_to_run() {
    let mut task = ImportTask::new();
    let result = task.submit("https://example.org/a".to_string());
    assert_eq!(result, Ok(request_for("https://example.org/a")));
    assert_eq!(
        task.poll(),
        ImportJob {
            source_url: "https://example.org/a".to_string(),
            status: ImportStatus::Running,
            message: "📥 Downloading background song...".to_string()
        }
    );
    assert!(task.is_active());
}

#[test]
fn submit_while_running_is_busy_and_leaves_the_job_alone() {
    let mut task = ImportTask::new();
    assert!(task.submit("first".to_string()).is_ok());
    let before = task.poll();
    assert_eq!(task.submit("second".to_string()), Err(SubmitError::Busy));
    assert_eq!(task.poll(), before);
    assert_eq!(task.poll().source_url, "first");
    assert_eq!(task.poll().status, ImportStatus::Running);
}

#[test]
fn finish_marks_done_or_failed() {
    let mut done = ImportTask::new();
    done.submit("u".to_string()).unwrap();
    done.finish(ConversionOutcome::Succeeded);
    assert_eq!(done.poll().status, ImportStatus::Done);
    assert_eq!(done.poll().message, "✅ Success! Press ENTER");

    let mut failed = ImportTask::new();
    failed.submit("u".to_string()).unwrap();
    failed.finish(ConversionOutcome::ExitedWithFailure);
    assert_eq!(failed.poll().status, ImportStatus::Failed(FailureReason::ConversionFailed));
    assert_eq!(failed.poll().message, "❌ Failed");

    let mut missing = ImportTask::new();
    missing.submit("u".to_string()).unwrap();
    missing.finish(ConversionOutcome::ConverterMissing);
    assert_eq!(missing.poll().status, ImportStatus::Failed(FailureReason::ConverterMissing));
    assert_eq!(missing.poll().message, "❌ yt-dlp missing");
    assert_ne!(missing.poll().message, failed.poll().message);
}

#[test]
fn finish_without_a_running_job_changes_nothing() {
    let mut task = ImportTask::new();
    task.finish(ConversionOutcome::Succeeded);
    assert_eq!(task, ImportTask::new());
    task.submit("u".to_string()).unwrap();
    task.finish(ConversionOutcome::Succeeded);
    task.finish(ConversionOutcome::ConverterMissing);
    assert_eq!(task.poll().status, ImportStatus::Done);
}

#[test]
fn acknowledge_clears_a_job_that_has_ended() {
    let mut task = ImportTask::new();
    assert!(!task.acknowledge());
    task.submit("u".to_string()).unwrap();
    assert!(!task.acknowledge());
    assert_eq!(task.poll().status, ImportStatus::Running);
    task.finish(ConversionOutcome::Succeeded);
    assert!(task.is_active());
    assert!(task.acknowledge());
    assert_eq!(task.poll().status, ImportStatus::Idle);
    assert_eq!(task.poll().message, "Ready");
    assert!(!task.is_active());
    assert!(!task.acknowledge());

    task.submit("v".to_string()).unwrap();
    task.finish(ConversionOutcome::ExitedWithFailure);
    assert!(task.acknowledge());
    assert_eq!(task.poll().status, ImportStatus::Idle);
}

#[test]
fn submit_after_the_end_of_a_job_starts_the_next() {
    let mut task = ImportTask::new();
    task.submit("first".to_string()).unwrap();
    task.finish(ConversionOutcome::ExitedWithFailure);
    assert_eq!(task.submit("second".to_string()), Ok(request_for("second")));
    assert_eq!(task.poll().status, ImportStatus::Running);
    assert_eq!(task.poll().source_url, "second");
}

#[test]
fn exit_of_the_converter_is_classified() {
    assert_eq!(classify_exit(None), ConversionOutcome::ConverterMissing);
    assert_eq!(classify_exit(Some(true)), ConversionOutcome::Succeeded);
    assert_eq!(classify_exit(Some(false)), ConversionOutcome::ExitedWithFailure);
}

#[test]
fn each_status_has_its_message() {
    assert_eq!(message_for(ImportStatus::Idle), "Ready");
    assert_eq!(message_for(ImportStatus::Running), "📥 Downloading background song...");
    assert_eq!(message_for(ImportStatus::Done), "✅ Success! Press ENTER");
    assert_eq!(message_for(ImportStatus::Failed(FailureReason::ConversionFailed)), "❌ Failed");
    assert_eq!(
        message_for(ImportStatus::Failed(FailureReason::ConverterMissing)),
        "❌ yt-dlp missing"
    );
}
