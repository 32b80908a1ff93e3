use base64::Engine;
use printing_service::pipeline::{
    http_status_of, response_message, JobAction, JobEvent, JobMachine, JobOutcome, JobPhase,
    PipelineError, PrintJobRequest,
};
use printing_service::render::{JobFormat, RenderFailure, RenderPlan};

fn job(printer: &str, content: &str, format: JobFormat, token: &str) -> PrintJobRequest {
    PrintJobRequest {
        printer_name: printer.to_owned(),
        content: content.to_owned(),
        format,
        auth_token: token.to_owned(),
    }
}

#[test]
fn pdf_job_dispatches_decoded_bytes_once() {
    let doc: &[u8] = b"%PDF-1.4\n1 0 obj\n<< /Type /Catalog >>\nendobj\ntrailer\n%%EOF\n";
    let encoded = base64::engine::general_purpose::STANDARD.encode(doc);
    let (mut m, first) = JobMachine::start(job("Office", &encoded, JobFormat::Pdf, ""), "/tmp".to_owned());
    assert!(matches!(first, JobAction::LookupPrinter { ref printer_name } if printer_name == "Office"));

    let act = m.step(JobEvent::PrinterLookup { exists: true });
    let (bytes, path) = match act {
        JobAction::StageArtifact { bytes, path } => (bytes, path),
        other => panic!("expected staging, got {:?}", other),
    };
    assert_eq!(bytes, doc.to_vec());

    let mut rest = Vec::new();
    rest.push(m.step(JobEvent::StageDone { ok: true }));
    rest.push(m.step(JobEvent::DispatchDone { exit_success: true, diagnostic: String::new() }));
    rest.push(m.step(JobEvent::CleanupDone));

    match &rest[0] {
        JobAction::DispatchArtifact { path: p, printer_name } => {
            assert_eq!(p, &path);
            assert_eq!(printer_name, "Office");
        },
        other => panic!("expected dispatch, got {:?}", other),
    }
    match &rest[1] {
        JobAction::RemoveArtifact { path: p } => assert_eq!(p, &path),
        other => panic!("expected cleanup, got {:?}", other),
    }
    match &rest[2] {
        JobAction::Report { outcome } => assert_eq!(outcome, &JobOutcome::Accepted),
        other => panic!("expected report, got {:?}", other),
    }
    let dispatches = rest.iter().filter(|a| matches!(a, JobAction::DispatchArtifact { .. })).count();
    assert_eq!(dispatches, 1);
}

#[test]
fn missing_printer_is_refused_without_work() {
    let events = vec![JobEvent::PrinterLookup { exists: false }];
    let (m, actions) = JobMachine::replay(job("Ghost", "aGVsbG8=", JobFormat::Pdf, ""), "/tmp".to_owned(), events);
    assert_eq!(actions.len(), 2);
    assert!(matches!(actions[0], JobAction::LookupPrinter { .. }));
    assert!(matches!(
        actions[1],
        JobAction::Report { outcome: JobOutcome::Failed(PipelineError::PrinterNotFound) }
    ));
    for a in &actions {
        assert!(!matches!(a, JobAction::RenderDocument { .. }));
        assert!(!matches!(a, JobAction::StageArtifact { .. }));
        assert!(!matches!(a, JobAction::DispatchArtifact { .. }));
    }
    assert!(matches!(m.phase, JobPhase::Done { .. }));
}

#[test]
fn dispatch_failure_reports_diagnostic_and_still_cleans_up() {
    let (mut m, _) = JobMachine::start(job("Office", "aGVsbG8=", JobFormat::Pdf, ""), "/tmp".to_owned());
    let act = m.step(JobEvent::PrinterLookup { exists: true });
    let path = match act {
        JobAction::StageArtifact { path, .. } => path,
        other => panic!("expected staging, got {:?}", other),
    };
    m.step(JobEvent::StageDone { ok: true });
    let act = m.step(JobEvent::DispatchDone { exit_success: false, diagnostic: "offline".to_owned() });
    match act {
        JobAction::RemoveArtifact { path: ref p } => assert_eq!(p, &path),
        ref other => panic!("expected cleanup, got {:?}", other),
    }
    let act = m.step(JobEvent::CleanupDone);
    match act {
        JobAction::Report { outcome: JobOutcome::Failed(PipelineError::DispatchFailed(d)) } => {
            assert!(d.contains("offline"));
        },
        other => panic!("expected dispatch failure, got {:?}", other),
    }
}

#[test]
fn staged_paths_are_removed_on_every_outcome() {
    let runs = vec![
        vec![
            JobEvent::PrinterLookup { exists: true },
            JobEvent::StageDone { ok: true },
            JobEvent::DispatchDone { exit_success: true, diagnostic: String::new() },
            JobEvent::CleanupDone,
        ],
        vec![
            JobEvent::PrinterLookup { exists: true },
            JobEvent::StageDone { ok: true },
            JobEvent::DispatchDone { exit_success: false, diagnostic: "jam".to_owned() },
            JobEvent::CleanupDone,
        ],
        vec![
            JobEvent::PrinterLookup { exists: true },
            JobEvent::StageDone { ok: false },
            JobEvent::CleanupDone,
        ],
    ];
    for events in runs {
        let (_m, actions) =
            JobMachine::replay(job("Office", "aGVsbG8=", JobFormat::Pdf, ""), "/tmp".to_owned(), events);
        let staged: Vec<(usize, String)> = actions
            .iter()
            .enumerate()
            .filter_map(|(i, a)| match a {
                JobAction::StageArtifact { path, .. } => Some((i, path.clone())),
                _ => None,
            })
            .collect();
        assert!(!staged.is_empty());
        for (i, p) in staged {
            assert!(actions.iter().skip(i + 1).any(
                |a| matches!(a, JobAction::RemoveArtifact { path } if *path == p)
            ));
        }
    }
}

#[test]
fn html_job_requests_engine_render_with_data_url() {
    let (mut m, _) = JobMachine::start(job("Office", "<h1>hi</h1>", JobFormat::Html, ""), "/tmp".to_owned());
    let act = m.step(JobEvent::PrinterLookup { exists: true });
    match act {
        JobAction::RenderDocument { plan: RenderPlan::InlineHtml { data_url } } => {
            assert_eq!(data_url, "data:text/html,<h1>hi</h1>");
        },
        other => panic!("expected an inline render plan, got {:?}", other),
    }
    let act = m.step(JobEvent::RenderDone { result: Ok(vec![1u8, 2, 3]) });
    match act {
        JobAction::StageArtifact { bytes, .. } => assert_eq!(bytes, vec![1u8, 2, 3]),
        other => panic!("expected staging, got {:?}", other),
    }
}

#[test]
fn render_engine_failure_ends_the_job() {
    let events = vec![
        JobEvent::PrinterLookup { exists: true },
        JobEvent::RenderDone { result: Err(RenderFailure::RenderEngineError) },
    ];
    let (_m, actions) =
        JobMachine::replay(job("Office", "http://x", JobFormat::Url, ""), "/tmp".to_owned(), events);
    assert!(matches!(
        actions.last(),
        Some(JobAction::Report {
            outcome: JobOutcome::Failed(PipelineError::RenderingFailed(RenderFailure::RenderEngineError)),
        })
    ));
    assert!(!actions.iter().any(|a| matches!(a, JobAction::StageArtifact { .. })));
}

#[test]
fn invalid_base64_reports_invalid_encoding() {
    let (mut m, _) = JobMachine::start(job("Office", "!!!not base64!!!", JobFormat::Pdf, ""), "/tmp".to_owned());
    let act = m.step(JobEvent::PrinterLookup { exists: true });
    assert!(matches!(
        act,
        JobAction::Report {
            outcome: JobOutcome::Failed(PipelineError::RenderingFailed(RenderFailure::InvalidEncoding)),
        }
    ));
}

#[test]
fn staging_failure_reports_staging_failed() {
    let events = vec![
        JobEvent::PrinterLookup { exists: true },
        JobEvent::StageDone { ok: false },
        JobEvent::CleanupDone,
    ];
    let (_m, actions) =
        JobMachine::replay(job("Office", "aGVsbG8=", JobFormat::Pdf, ""), "/tmp".to_owned(), events);
    assert!(matches!(
        actions.last(),
        Some(JobAction::Report { outcome: JobOutcome::Failed(PipelineError::StagingFailed) })
    ));
    assert!(!actions.iter().any(|a| matches!(a, JobAction::DispatchArtifact { .. })));
}

#[test]
fn outcomes_map_to_status_and_message() {
    assert_eq!(http_status_of(&JobOutcome::Accepted), 200);
    assert_eq!(http_status_of(&JobOutcome::Failed(PipelineError::PrinterNotFound)), 404);
    assert_eq!(http_status_of(&JobOutcome::Failed(PipelineError::StagingFailed)), 500);
    assert_eq!(
        http_status_of(&JobOutcome::Failed(PipelineError::DispatchFailed("x".to_owned()))),
        500
    );
    assert_eq!(response_message(&JobOutcome::Accepted), "Printing");
    assert_eq!(response_message(&JobOutcome::Failed(PipelineError::PrinterNotFound)), "Printer not found");
    assert_eq!(
        response_message(&JobOutcome::Failed(PipelineError::DispatchFailed("offline".to_owned()))),
        "offline"
    );
    assert_eq!(
        response_message(&JobOutcome::Failed(PipelineError::RenderingFailed(RenderFailure::InvalidEncoding))),
        "Invalid base64 content"
    );
    assert_eq!(
        response_message(&JobOutcome::Failed(PipelineError::RenderingFailed(RenderFailure::RenderEngineError))),
        "Failed to render"
    );
    assert_eq!(
        response_message(&JobOutcome::Failed(PipelineError::RenderingFailed(RenderFailure::HeaderInjectionError))),
        "Failed to set headers"
    );
    assert_eq!(
        response_message(&JobOutcome::Failed(PipelineError::StagingFailed)),
        "Failed to stage file"
    );
}

#[test]
fn unawaited_events_are_dropped() {
    let events = vec![JobEvent::CleanupDone, JobEvent::PrinterLookup { exists: false }];
    let (m, actions) =
        JobMachine::replay(job("Ghost", "aGVsbG8=", JobFormat::Pdf, ""), "/tmp".to_owned(), events);
    assert_eq!(actions.len(), 2);
    assert!(matches!(
        actions[1],
        JobAction::Report { outcome: JobOutcome::Failed(PipelineError::PrinterNotFound) }
    ));
    assert!(matches!(m.phase, JobPhase::Done { .. }));
}
