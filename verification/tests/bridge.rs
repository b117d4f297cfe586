use pdf_extract_node::errors::{extraction_failure, write_failure};
use pdf_extract_node::extraction::finish_extraction;
use pdf_extract_node::staging::{
    fresh_staged_name, staged_file_name, start_staging, staging_step, StagingAction, StagingEvent,
    StagingState,
};
use pdf_extract_node::task::{
    extract_text_from_buffer_async, extract_text_from_file_async,
};
use pdf_extract_node::init;

#[test]
fn init_returns_ok() {
    assert!(init().is_ok());
}

#[test]
fn init_is_idempotent() {
    let first = init();
    let second = init();
    assert!(first.is_ok());
    assert!(second.is_ok());
}

#[test]
fn extraction_failure_message_embeds_cause() {
    let e = extraction_failure("bad xref table");
    assert_eq!(e.message, "Failed to extract text: bad xref table");
}

#[test]
fn write_failure_message_embeds_cause() {
    let e = write_failure("disk full");
    assert_eq!(e.message, "Failed to write temp file: disk full");
}

#[test]
fn finish_extraction_passes_text_through() {
    let r = finish_extraction(Ok("page one".to_string()));
    assert_eq!(r.unwrap(), "page one");
}

#[test]
fn finish_extraction_wraps_failure() {
    let r = finish_extraction(Err("IO error: no such file".to_string()));
    let e = r.unwrap_err();
    assert_eq!(e.message, "Failed to extract text: IO error: no such file");
}

#[test]
fn missing_path_yields_wrapped_failure() {
    let raw = pdf_extract::extract_text("/nonexistent/dir/missing.pdf")
        .map_err(|e| format!("{}", e));
    assert!(raw.is_err());
    let e = finish_extraction(raw).unwrap_err();
    assert!(e.message.starts_with("Failed to extract text: "));
}

#[test]
fn file_task_finish_agrees_with_sync_mapping() {
    let task = extract_text_from_file_async("/nonexistent/dir/missing.pdf".to_string());
    assert_eq!(task.path, "/nonexistent/dir/missing.pdf");
    let raw = pdf_extract::extract_text(task.path.as_str()).map_err(|e| format!("{}", e));
    let from_task = task.finish(raw.clone());
    let from_sync = finish_extraction(raw);
    assert_eq!(
        from_task.unwrap_err().message,
        from_sync.unwrap_err().message
    );
}

#[test]
fn file_task_finish_wraps_failure() {
    let task = extract_text_from_file_async("a.pdf".to_string());
    let e = task.finish(Err("PDF error: damaged".to_string())).unwrap_err();
    assert_eq!(e.message, "Failed to extract text: PDF error: damaged");
}

#[test]
fn file_task_finish_passes_text_through() {
    let task = extract_text_from_file_async("a.pdf".to_string());
    let r = task.finish(Ok("the text".to_string()));
    assert_eq!(r.unwrap(), "the text");
}

#[test]
fn file_task_resolve_passes_output_through() {
    let task = extract_text_from_file_async("a.pdf".to_string());
    let r = task.resolve("the text".to_string());
    assert_eq!(r.unwrap(), "the text");
}

#[test]
fn buffer_task_keeps_its_buffer() {
    let task = extract_text_from_buffer_async(vec![0x25, 0x50, 0x44, 0x46]);
    assert_eq!(task.buffer, vec![0x25, 0x50, 0x44, 0x46]);
    let r = task.resolve("buffered text".to_string());
    assert_eq!(r.unwrap(), "buffered text");
}

#[test]
fn buffer_task_begin_stages_its_own_bytes() {
    let task = extract_text_from_buffer_async(vec![7, 8, 9]);
    let (state, action) = task.begin();
    assert!(matches!(state, StagingState::Writing { .. }));
    match action {
        StagingAction::WriteTemp { name, bytes } => {
            assert_eq!(bytes, vec![7, 8, 9]);
            assert_eq!(name.len(), 4 + 36 + 4);
            assert!(name.starts_with("pdf_"));
            assert!(name.ends_with(".pdf"));
        }
        other => panic!("expected a write action, got {:?}", other),
    }
}

#[test]
fn staged_file_name_is_exact() {
    let n = staged_file_name("abc");
    assert_eq!(n, "pdf_abc.pdf");
}

#[test]
fn distinct_tokens_stage_distinct_names() {
    let a = staged_file_name("1111");
    let b = staged_file_name("2222");
    assert_ne!(a, b);
}

#[test]
fn fresh_staged_name_has_token_shape() {
    let n = fresh_staged_name();
    assert_eq!(n.len(), 4 + 36 + 4);
    assert!(n.starts_with("pdf_"));
    assert!(n.ends_with(".pdf"));
    let token = &n[4..n.len() - 4];
    assert!(token
        .chars()
        .all(|c| c == '-' || c.is_ascii_digit() || ('a'..='f').contains(&c)));
}

#[test]
fn fresh_staged_names_differ_between_calls() {
    let a = fresh_staged_name();
    let b = fresh_staged_name();
    assert_ne!(a, b);
}

#[test]
fn staging_success_run_reports_text_and_removes_file() {
    let (state, action) = start_staging("tok", vec![1, 2, 3]);
    match &action {
        StagingAction::WriteTemp { name, bytes } => {
            assert_eq!(name, "pdf_tok.pdf");
            assert_eq!(bytes, &vec![1, 2, 3]);
        }
        other => panic!("expected a write action, got {:?}", other),
    }
    assert!(matches!(state, StagingState::Writing { .. }));

    let (state, action) = staging_step(
        state,
        StagingEvent::WriteFinished { outcome: Ok(()) },
    );
    match &action {
        StagingAction::ExtractFrom { name } => assert_eq!(name, "pdf_tok.pdf"),
        other => panic!("expected an extract action, got {:?}", other),
    }
    assert!(matches!(state, StagingState::Extracting { .. }));

    let (state, action) = staging_step(
        state,
        StagingEvent::ExtractFinished {
            outcome: Ok("hello from the pdf".to_string()),
        },
    );
    match &action {
        StagingAction::RemoveTemp { name } => assert_eq!(name, "pdf_tok.pdf"),
        other => panic!("expected a remove action, got {:?}", other),
    }
    assert!(matches!(state, StagingState::Removing { .. }));

    let (state, action) = staging_step(state, StagingEvent::RemoveFinished);
    assert!(matches!(action, StagingAction::Report));
    match state {
        StagingState::Done { result } => {
            assert_eq!(result.unwrap(), "hello from the pdf");
        }
        other => panic!("expected a finished state, got {:?}", other),
    }
}

#[test]
fn staging_write_failure_still_removes_file() {
    let (state, _) = start_staging("tok", vec![1]);
    let (state, action) = staging_step(
        state,
        StagingEvent::WriteFinished {
            outcome: Err("permission denied".to_string()),
        },
    );
    match &action {
        StagingAction::RemoveTemp { name } => assert_eq!(name, "pdf_tok.pdf"),
        other => panic!("expected a remove action, got {:?}", other),
    }
    assert!(matches!(state, StagingState::Removing { .. }));
    let (state, action) = staging_step(state, StagingEvent::RemoveFinished);
    assert!(matches!(action, StagingAction::Report));
    match state {
        StagingState::Done { result } => {
            let e = result.unwrap_err();
            assert_eq!(e.message, "Failed to write temp file: permission denied");
        }
        other => panic!("expected a finished state, got {:?}", other),
    }
}

#[test]
fn staging_extract_failure_still_removes_file() {
    let (state, _) = start_staging("tok", vec![1]);
    let (state, _) = staging_step(state, StagingEvent::WriteFinished { outcome: Ok(()) });
    let (state, action) = staging_step(
        state,
        StagingEvent::ExtractFinished {
            outcome: Err("PDF error: damaged".to_string()),
        },
    );
    match &action {
        StagingAction::RemoveTemp { name } => assert_eq!(name, "pdf_tok.pdf"),
        other => panic!("expected a remove action, got {:?}", other),
    }
    let (state, action) = staging_step(state, StagingEvent::RemoveFinished);
    assert!(matches!(action, StagingAction::Report));
    match state {
        StagingState::Done { result } => {
            let e = result.unwrap_err();
            assert_eq!(e.message, "Failed to extract text: PDF error: damaged");
        }
        other => panic!("expected a finished state, got {:?}", other),
    }
}

#[test]
fn concurrent_buffer_requests_stay_independent() {
    let first = extract_text_from_buffer_async(vec![1, 2, 3]);
    let second = extract_text_from_buffer_async(vec![9, 9]);
    assert_eq!(first.buffer, vec![1, 2, 3]);
    assert_eq!(second.buffer, vec![9, 9]);

    let (_, first_action) = start_staging("aaaa", vec![1, 2, 3]);
    let (_, second_action) = start_staging("bbbb", vec![9, 9]);
    let (first_name, first_bytes) = match first_action {
        StagingAction::WriteTemp { name, bytes } => (name, bytes),
        other => panic!("expected a write action, got {:?}", other),
    };
    let (second_name, second_bytes) = match second_action {
        StagingAction::WriteTemp { name, bytes } => (name, bytes),
        other => panic!("expected a write action, got {:?}", other),
    };
    assert_ne!(first_name, second_name);
    assert_eq!(first_bytes, vec![1, 2, 3]);
    assert_eq!(second_bytes, vec![9, 9]);
}
