use printing_service::directory::{printers_catalog, state_label, PrinterInfo, PrinterStateKind};
use printing_service::dispatch::{classify_exit, print_command_line};
use printing_service::render::{plan_render, render_pdf, JobFormat, RenderFailure, RenderPlan};

#[test]
fn render_pdf_decodes_exactly() {
    let out = render_pdf("aGVsbG8=").unwrap();
    assert_eq!(out, b"hello".to_vec());
}

#[test]
fn render_pdf_of_empty_content_is_empty() {
    assert_eq!(render_pdf("").unwrap(), Vec::<u8>::new());
}

#[test]
fn render_pdf_rejects_bad_base64() {
    assert!(matches!(render_pdf("%%%"), Err(RenderFailure::InvalidEncoding)));
}

#[test]
fn html_plan_is_a_data_url() {
    let plan = plan_render(JobFormat::Html, "<p>x</p>", "").unwrap();
    match plan {
        RenderPlan::InlineHtml { data_url } => assert_eq!(data_url, "data:text/html,<p>x</p>"),
        other => panic!("expected an inline plan, got {:?}", other),
    }
}

#[test]
fn url_plan_attaches_bearer_header_only_for_nonempty_token() {
    let plan = plan_render(JobFormat::Url, "http://example.test/doc", "secret").unwrap();
    match plan {
        RenderPlan::Navigate { url, authorization, prefer_css_page_size } => {
            assert_eq!(url, "http://example.test/doc");
            assert_eq!(authorization, Some("Bearer secret".to_owned()));
            assert!(prefer_css_page_size);
        },
        other => panic!("expected a navigation plan, got {:?}", other),
    }

    let plan = plan_render(JobFormat::Url, "http://example.test/doc", "").unwrap();
    match plan {
        RenderPlan::Navigate { authorization, .. } => assert_eq!(authorization, None),
        other => panic!("expected a navigation plan, got {:?}", other),
    }
}

#[test]
fn pdf_needs_no_render_plan() {
    assert!(plan_render(JobFormat::Pdf, "aGVsbG8=", "").is_none());
}

#[test]
fn classify_exit_keeps_no_diagnostic_on_success() {
    let r = classify_exit(true, "ignored".to_owned());
    assert!(r.succeeded);
    assert_eq!(r.diagnostic, None);
}

#[test]
fn classify_exit_carries_output_on_failure() {
    let r = classify_exit(false, "offline".to_owned());
    assert!(!r.succeeded);
    assert_eq!(r.diagnostic, Some("offline".to_owned()));
}

#[test]
fn bundled_tool_command_line_is_path_then_printer() {
    let (program, args) = print_command_line("/tmp/output_abc.pdf", "Office", true);
    assert_eq!(program, "PDFtoPrinter.exe");
    assert_eq!(args, vec!["/tmp/output_abc.pdf".to_owned(), "Office".to_owned()]);
}

#[test]
fn remote_print_command_line_names_printer_behind_flag() {
    let (program, args) = print_command_line("/tmp/output_abc.pdf", "Office", false);
    assert_eq!(program, "lpr");
    assert_eq!(
        args,
        vec!["-P".to_owned(), "Office".to_owned(), "/tmp/output_abc.pdf".to_owned()]
    );
}

#[test]
fn state_labels_are_exact() {
    assert_eq!(state_label(PrinterStateKind::Ready), "Ready");
    assert_eq!(state_label(PrinterStateKind::Offline), "Offline");
    assert_eq!(state_label(PrinterStateKind::Paused), "Paused");
    assert_eq!(state_label(PrinterStateKind::Printing), "Printing");
    assert_eq!(state_label(PrinterStateKind::Unknown), "Unknown");
}

#[test]
fn catalog_turns_entries_into_records() {
    let raw = vec![
        PrinterInfo {
            name: "Office".to_owned(),
            system_name: "office_01".to_owned(),
            is_default: true,
            state: PrinterStateKind::Paused,
        },
        PrinterInfo {
            name: "Lobby".to_owned(),
            system_name: "lobby_02".to_owned(),
            is_default: false,
            state: PrinterStateKind::Ready,
        },
    ];
    let records = printers_catalog(raw);
    assert_eq!(records.len(), 2);
    assert_eq!(records[0].name, "Office");
    assert_eq!(records[0].system_name, "office_01");
    assert!(records[0].is_default);
    assert_eq!(records[0].state, "Paused");
    assert_eq!(records[1].name, "Lobby");
    assert_eq!(records[1].state, "Ready");
}
