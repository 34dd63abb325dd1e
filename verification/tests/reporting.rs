use mochify::auth::{
    auth_state, auth_url, key_preview, poll_action, poll_url, usage_key, usage_lines, PollAction,
};
use mochify::meta::{
    lossless_downgraded_text, print_pdf_meta, print_pdf_summary, print_squish_meta,
    warn_if_hdr_dropped, warn_if_lossless_downgraded, PdfMeta, SquishMeta, UsageInfo,
};
use mochify::params::{format_params_summary, ProcessParams};
use mochify::pdf::{PdfOptions, PdfParams};
use mochify::tools::{
    check_usage_report, pdf_create_tool_params, pdf_tool_params, saved_note, squish_tool_params,
    tool_error_text, tool_hdr_note, tool_lossless_note, usage_note, PdfCreateInput, PdfInput,
    SquishInput,
};

fn squish_input() -> SquishInput {
    SquishInput {
        file_path: "/tmp/a.jpg".into(),
        format: None,
        width: None,
        height: None,
        crop: None,
        rotation: None,
        output_dir: None,
        output_name: None,
        clarity: None,
        remove_background: None,
        background: None,
        strip_metadata: None,
        quality: None,
        smart_compress: None,
        brightness: None,
        optimize_for_web: None,
        lossless: None,
        hdr: None,
    }
}

fn pdf_input(op: Option<&str>) -> PdfInput {
    PdfInput {
        file_path: "/tmp/a.pdf".into(),
        op: op.map(String::from),
        format: None,
        dpi: None,
        quality: None,
        max_width: None,
        min_size: None,
        output_dir: None,
    }
}

#[test]
fn pdf_summaries_describe_each_op() {
    let p = PdfParams::for_op("rasterize", PdfOptions::default()).unwrap();
    assert_eq!(print_pdf_summary(&p, 1), "Interpreted: rasterize to PNG at 150 DPI");
    let p = PdfParams::for_op(
        "extract",
        PdfOptions {
            format: Some("webp".into()),
            max_width: Some(1600),
            ..Default::default()
        },
    )
    .unwrap();
    assert_eq!(
        print_pdf_summary(&p, 1),
        "Interpreted: extract the embedded images as WEBP, capped at 1600px wide"
    );
    let p = PdfParams::for_op("extract", PdfOptions::default()).unwrap();
    assert_eq!(
        print_pdf_summary(&p, 1),
        "Interpreted: extract the embedded images in their original encoding"
    );
    let p = PdfParams::for_op(
        "optimize",
        PdfOptions {
            quality: Some(75),
            dpi: Some(150),
            max_width: Some(0),
            ..Default::default()
        },
    )
    .unwrap();
    assert_eq!(
        print_pdf_summary(&p, 1),
        "Interpreted: recompress the images inside the PDF at quality 75, max 150 DPI"
    );
    let p = PdfParams::for_op(
        "create",
        PdfOptions {
            page: Some("a4".into()),
            combine: Some(false),
            ..Default::default()
        },
    )
    .unwrap();
    assert_eq!(
        print_pdf_summary(&p, 3),
        "Interpreted: build one PDF per image from 3 images, A4 pages"
    );
    let p = PdfParams::for_op("create", PdfOptions::default()).unwrap();
    assert_eq!(
        print_pdf_summary(&p, 2),
        "Interpreted: build one PDF from 2 images, pages sized to each image"
    );
    let p = PdfParams::for_op("split", PdfOptions::default()).unwrap();
    assert_eq!(print_pdf_summary(&p, 1), "Interpreted: split into per-page PDFs");
}

#[test]
fn pdf_meta_shows_the_saving_and_verbose_detail() {
    let optimize = PdfParams {
        op: "optimize".into(),
        ..Default::default()
    };
    let meta = PdfMeta {
        latency_ms: Some("120".into()),
        pages: Some("4".into()),
        saved_pct: Some("37".into()),
        ..Default::default()
    };
    assert_eq!(print_pdf_meta(&optimize, &meta, false), vec!["  ← 37% smaller".to_string()]);
    assert_eq!(
        print_pdf_meta(&optimize, &meta, true),
        vec![
            "  ← 37% smaller".to_string(),
            "  ← 120ms · 4 pages".to_string()
        ]
    );
    let unchanged = PdfMeta {
        saved_pct: Some("0".into()),
        ..Default::default()
    };
    assert_eq!(
        print_pdf_meta(&optimize, &unchanged, true),
        vec!["  ← already well optimized — the original was returned unchanged".to_string()]
    );
    let split = PdfParams {
        op: "split".into(),
        ..Default::default()
    };
    assert!(print_pdf_meta(&split, &meta, false).is_empty());
}

#[test]
fn squish_meta_report() {
    let meta = SquishMeta::from_headers(
        Some("88".into()),
        Some("false".into()),
        Some("already small".into()),
        Some("72".into()),
        None,
        Some("true".into()),
        None,
        Some("true".into()),
    );
    assert!(!meta.optimized);
    assert!(meta.bg_removed);
    assert_eq!(
        print_squish_meta(&meta),
        "  ← 88ms · not optimized · (already small) · quality 72 · bg removed · lossless true"
    );
    let meta = SquishMeta::from_headers(None, Some("true".into()), None, None, None, None, None, None);
    assert_eq!(print_squish_meta(&meta), "  ← optimized");
}

#[test]
fn hdr_and_lossless_notes() {
    let asked_png = ProcessParams {
        hdr: Some("generate".into()),
        format: Some("png".into()),
        ..Default::default()
    };
    let dropped = SquishMeta {
        hdr: Some("false".into()),
        ..Default::default()
    };
    assert!(warn_if_hdr_dropped(&asked_png, &dropped).unwrap().contains("only jpg output"));
    let preserve = ProcessParams {
        hdr: Some("1".into()),
        ..Default::default()
    };
    assert!(warn_if_hdr_dropped(&preserve, &dropped).unwrap().contains("no gain map to preserve"));
    let generate = ProcessParams {
        hdr: Some("generate".into()),
        format: Some("jpeg".into()),
        ..Default::default()
    };
    assert_eq!(
        warn_if_hdr_dropped(&generate, &dropped),
        Some("  note: the output carries no HDR gain map.")
    );
    let lossless = ProcessParams {
        lossless: Some(true),
        ..Default::default()
    };
    let downgraded = SquishMeta {
        lossless: Some("downgraded".into()),
        ..Default::default()
    };
    assert!(warn_if_lossless_downgraded(&lossless, &downgraded));
    assert!(!warn_if_lossless_downgraded(&ProcessParams::default(), &downgraded));
    assert!(lossless_downgraded_text().contains("best lossy encode"));
}

#[test]
fn squish_tool_checks_its_arguments() {
    let mut i = squish_input();
    i.hdr = Some("Make".into());
    i.strip_metadata = Some(false);
    let p = squish_tool_params(&i).unwrap();
    assert_eq!(p.hdr.as_deref(), Some("generate"));
    assert_eq!(p.strip_exif, Some(false));
    let mut i = squish_input();
    i.lossless = Some(true);
    i.format = Some("avif".into());
    assert_eq!(
        tool_error_text(&squish_tool_params(&i).unwrap_err()),
        "Error: lossless output is not possible with type avif. Only jxl, webp, png can hold pixel-exact output."
    );
    let mut i = squish_input();
    i.hdr = Some("sometimes".into());
    assert!(squish_tool_params(&i).is_err());
}

#[test]
fn tool_notes() {
    let hdr = ProcessParams {
        hdr: Some("1".into()),
        lossless: Some(true),
        ..Default::default()
    };
    assert_eq!(
        tool_hdr_note(&hdr, &Some("true".into())),
        " (HDR gain map preserved from the source)"
    );
    assert_eq!(tool_hdr_note(&hdr, &Some("generated".into())), " (HDR gain map generated)");
    assert_eq!(tool_hdr_note(&ProcessParams::default(), &Some("true".into())), "");
    assert_eq!(tool_lossless_note(&hdr, &Some("true".into())), " (pixel-exact)");
    assert!(tool_lossless_note(&hdr, &Some("downgraded".into())).contains("already lossy"));
    assert_eq!(usage_note(Some(12)), " (12 requests remaining today)");
    assert_eq!(usage_note(None), "");
    let optimize = PdfParams {
        op: "optimize".into(),
        ..Default::default()
    };
    assert_eq!(saved_note(&optimize, &Some("41".into())), " (41% smaller)");
    assert!(saved_note(&optimize, &Some("0".into())).contains("already well optimized"));
    assert_eq!(saved_note(&optimize, &None), "");
}

#[test]
fn pdf_tools_build_their_requests() {
    let p = pdf_tool_params(&pdf_input(None)).unwrap();
    assert_eq!(p.op, "rasterize");
    assert_eq!(p.dpi, Some(150));
    assert_eq!(
        tool_error_text(&pdf_tool_params(&pdf_input(Some(" CREATE"))).unwrap_err()),
        "Error: use the pdf_create tool to build a PDF from images."
    );
    let create = PdfCreateInput {
        file_paths: vec![],
        page: None,
        quality: None,
        dpi: None,
        max_width: None,
        combine: None,
        output_name: None,
        output_dir: None,
    };
    assert!(pdf_create_tool_params(&create).is_err());
    let create = PdfCreateInput {
        file_paths: vec!["/tmp/a.jpg".into()],
        page: Some("Letter".into()),
        combine: Some(false),
        ..create
    };
    let p = pdf_create_tool_params(&create).unwrap();
    assert_eq!(p.op, "create");
    assert_eq!(p.page.as_deref(), Some("letter"));
    assert_eq!(p.combine, Some(false));
}

#[test]
fn usage_reports() {
    let u = UsageInfo {
        remaining: 20,
        quota: 25,
        plan: "free".into(),
        available: true,
    };
    assert_eq!(
        check_usage_report(&u),
        "20 of 25 operations remaining this billing period on the free plan."
    );
    assert_eq!(
        usage_lines(&u),
        vec!["Plan: free".to_string(), "Remaining: 20 / 25".to_string(), "Available: true".to_string()]
    );
    let u = UsageInfo {
        remaining: 0,
        quota: 0,
        plan: String::new(),
        available: false,
    };
    assert_eq!(
        check_usage_report(&u),
        "0 operations remaining this billing period. Nothing is available right now — upgrade the plan or wait for the next cycle."
    );
    assert_eq!(
        usage_lines(&u),
        vec!["Remaining: 0".to_string(), "Available: false".to_string()]
    );
    assert!(usage_key(&None).is_err());
    assert_eq!(usage_key(&Some("k".to_string())).unwrap(), "k");
}

#[test]
fn sign_in_state_and_polling() {
    assert_eq!(auth_state(&[0x00, 0x0f, 0xa5, 0xff]), "000fa5ff");
    assert_eq!(auth_state(&[0u8; 32]).len(), 64);
    assert_eq!(auth_url("ab"), "https://mochify.app/auth/cli?state=ab");
    assert_eq!(poll_url("ab"), "https://id.mochify.app/v1/cli/poll/ab");
    assert_eq!(poll_action(true, Some(200)), PollAction::TimedOut);
    assert_eq!(poll_action(false, Some(200)), PollAction::Authorized);
    assert_eq!(poll_action(false, Some(404)), PollAction::Wait);
    assert_eq!(poll_action(false, None), PollAction::Wait);
}

#[test]
fn key_previews_show_at_most_eight_bytes() {
    assert_eq!(key_preview("mk_live_0123456789"), "mk_live_");
    assert_eq!(key_preview("short"), "short");
    assert_eq!(key_preview("ééééé"), "éééé");
}

#[test]
fn summary_uses_signed_brightness_and_rotation() {
    let s = format_params_summary(&ProcessParams {
        brightness: Some(30),
        rotation: Some(90),
        strip_exif: Some(false),
        width: Some(500),
        background: Some("white".into()),
        ..Default::default()
    });
    assert_eq!(s, "500w · rotate 90° · bg white · keep metadata · brightness +30");
}
