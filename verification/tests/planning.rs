use mochify::cli::{
    building_pdf_message, check_pdf_path_op, explicit_params, route_inputs, Args, InputRoute,
};
use mochify::error::{rate_limit_error, status_outcome, MochifyError, StatusOutcome};
use mochify::modes::{
    hdr_mode_from_token, image_type_from_token, lossless_refusal, lossless_refusal_of_type,
    normalize_image_type, LOSSLESS_FORMATS,
};
use mochify::naming::{
    image_mime, is_pdf, is_pdf_extension, lands_on_input, lands_on_input_ext, mime_for_ext,
    name_search_step, numbered_name, output_dir, output_dir_for, pdf_create_stem,
    sanitize_output_name, squish_ext_for, squish_output_ext, squish_output_stem,
    strip_invalid_chars, NameStep, squish_output_base, pdf_output_base, pdf_create_base,
    display_name, display_names,
};
use mochify::text::trim_str;
use mochify::params::{build_squish_query, merge_params, ProcessParams};
use mochify::pdf::{build_pdf_query, page_from_token, pdf_type_from_token, PdfOptions, PdfParams};
use mochify::plan::{
    file_variants, input_file_names, job_label, lookup_variants, plan_for_inputs,
    print_prompt_summary, prompt_plan, variants_for_path,
};
use mochify::prompt::PromptFileResult;

fn image_args(set: impl FnOnce(&mut Args)) -> Args {
    let mut a = Args {
        files: vec!["photo.jpg".to_string()],
        ..Default::default()
    };
    set(&mut a);
    a
}

fn answer(name: &str, format: &str) -> PromptFileResult {
    PromptFileResult {
        filename: name.into(),
        format: Some(format.into()),
        width: None,
        height: None,
        crop: None,
        rotate: 0,
        output_name: None,
        clarity: None,
        remove_background: None,
        background: None,
        hdr: None,
        quality: None,
        smart_compress: None,
        brightness: None,
        optimize_for_web: None,
        lossless: None,
        types: None,
        sizes: None,
    }
}

#[test]
fn routes_by_extension_and_op() {
    let mut a = Args::default();
    a.files = vec!["a.PDF".into(), "b.pdf".into()];
    assert_eq!(route_inputs(&a).unwrap(), InputRoute::Pdfs);
    a.files = vec!["a.pdf".into(), "b.jpg".into()];
    assert!(matches!(route_inputs(&a), Err(MochifyError::MixedPdfsAndImages)));
    a.files = vec!["a.jpg".into(), "b.png".into()];
    assert_eq!(route_inputs(&a).unwrap(), InputRoute::Images);
    a.op = Some("  Create ".into());
    assert_eq!(route_inputs(&a).unwrap(), InputRoute::CreatePdf);
    a.files = vec!["a.jpg".into(), "b.pdf".into()];
    assert!(matches!(route_inputs(&a), Err(MochifyError::CreateGivenPdfs)));
    a.files = vec![];
    a.op = None;
    assert_eq!(route_inputs(&a).unwrap(), InputRoute::Images);
}

#[test]
fn explicit_flags_become_params() {
    let p = explicit_params(&image_args(|a| {
        a.format = Some("webp".into());
        a.crop = true;
        a.keep_metadata = true;
        a.hdr = Some("preserve".into());
        a.brightness = Some(-40);
        a.lossless = true;
        a.name = Some("hero".into());
    }))
    .unwrap();
    assert_eq!(p.format.as_deref(), Some("webp"));
    assert_eq!(p.crop, Some(true));
    assert_eq!(p.strip_exif, Some(false));
    assert_eq!(p.hdr.as_deref(), Some("1"));
    assert_eq!(p.brightness, Some(-40));
    assert_eq!(p.lossless, Some(true));
    assert_eq!(p.output_name.as_deref(), Some("hero"));
    assert_eq!(p.clarity, None);
    assert_eq!(p.smart_compress, None);
}

#[test]
fn each_bad_flag_is_refused_with_its_own_error() {
    assert!(matches!(
        explicit_params(&image_args(|a| a.rotation = Some(45))),
        Err(MochifyError::InvalidRotation { rotation: 45 })
    ));
    assert!(explicit_params(&image_args(|a| a.rotation = Some(270))).is_ok());
    assert!(matches!(
        explicit_params(&image_args(|a| a.hdr = Some("maybe".into()))),
        Err(MochifyError::UnknownHdrMode { .. })
    ));
    assert!(matches!(
        explicit_params(&image_args(|a| a.quality = Some(0))),
        Err(MochifyError::InvalidQuality { quality: 0 })
    ));
    assert!(explicit_params(&image_args(|a| a.quality = Some(100))).is_ok());
    assert!(matches!(
        explicit_params(&image_args(|a| a.brightness = Some(101))),
        Err(MochifyError::InvalidBrightness { brightness: 101 })
    ));
    let e = explicit_params(&image_args(|a| {
        a.lossless = true;
        a.format = Some(" JPEG".into());
    }))
    .unwrap_err();
    assert_eq!(
        e.message(),
        "--lossless can't be used with -t jpg. Only jxl, webp, png can hold pixel-exact output."
    );
    // The rotation is checked before the quality.
    assert!(matches!(
        explicit_params(&image_args(|a| {
            a.rotation = Some(1);
            a.quality = Some(0);
        })),
        Err(MochifyError::InvalidRotation { .. })
    ));
}

#[test]
fn lossless_formats_are_checked_after_normalising() {
    assert_eq!(LOSSLESS_FORMATS, ["jxl", "webp", "png"]);
    assert_eq!(normalize_image_type(" JPEG "), "jpg");
    assert_eq!(lossless_refusal("WebP"), None);
    assert_eq!(lossless_refusal("avif").as_deref(), Some("avif"));
}

#[test]
fn mime_types_follow_the_extension() {
    assert_eq!(image_mime("/tmp/a.jpeg"), "image/jpeg");
    assert_eq!(image_mime("a.jpg"), "image/jpeg");
    assert_eq!(image_mime("a.png"), "image/png");
    assert_eq!(image_mime("a.heif"), "image/heic");
    assert_eq!(image_mime("a.JPG"), "application/octet-stream");
    assert_eq!(image_mime("noext"), "application/octet-stream");
    assert!(is_pdf("dir/Report.Pdf"));
    assert!(!is_pdf("report.pdf.jpg"));
    assert!(!is_pdf("pdf"));
}

#[test]
fn image_results_are_named_after_their_input() {
    let none = ProcessParams::default();
    assert_eq!(squish_output_ext(&None, "dir/photo.png"), "png");
    assert_eq!(squish_output_ext(&None, "dir/photo"), "jpg");
    assert_eq!(squish_output_ext(&Some("webp".into()), "photo.png"), "webp");
    assert_eq!(squish_output_stem("photo", &none, true), "photo_mochified");
    assert_eq!(squish_output_stem("photo", &none, false), "photo");
    let named = ProcessParams {
        output_name: Some(" hero:1 ".into()),
        ..Default::default()
    };
    assert_eq!(squish_output_stem("photo", &named, true), "hero1");
    let variant = ProcessParams {
        out_name_suffix: Some("_500w".into()),
        ..Default::default()
    };
    assert_eq!(squish_output_stem("photo", &variant, true), "photo_500w");
    assert_eq!(pdf_create_stem(Some("scan/1"), "page-1"), "scan1");
    assert_eq!(pdf_create_stem(None, "page-1"), "page-1");
}

#[test]
fn numbered_names_count_up() {
    assert_eq!(numbered_name("report_images", "zip", 0), "report_images.zip");
    assert_eq!(numbered_name("report_images", "zip", 1), "report_images_1.zip");
    assert_eq!(numbered_name("x", "pdf", 12), "x_12.pdf");
    let names: Vec<String> = (0..20).map(|n| numbered_name("a", "b", n)).collect();
    for i in 0..names.len() {
        for j in 0..i {
            assert_ne!(names[i], names[j]);
        }
    }
}

#[test]
fn prompt_answers_are_filed_under_input_names() {
    let names = vec!["my photo.jpg".to_string()];
    let answers = vec![answer("my_photo.jpg", "webp"), answer("other.jpg", "avif")];
    let plan = prompt_plan(&names, &answers);
    assert_eq!(plan.len(), 2);
    assert_eq!(plan[0].0, "my photo.jpg");
    assert_eq!(plan[1].0, "other.jpg");
    let found = lookup_variants(&plan, "my photo.jpg").unwrap();
    assert_eq!(found[0].format.as_deref(), Some("webp"));
    assert!(lookup_variants(&plan, "missing.jpg").is_none());
}

#[test]
fn a_later_answer_for_the_same_name_replaces_an_earlier_one() {
    let names: Vec<String> = vec![];
    let answers = vec![answer("a.jpg", "webp"), answer("a.jpg", "avif")];
    let plan = prompt_plan(&names, &answers);
    let found = lookup_variants(&plan, "a.jpg").unwrap();
    assert_eq!(found.len(), 1);
    assert_eq!(found[0].format.as_deref(), Some("avif"));
}

#[test]
fn file_variants_merge_the_explicit_flags() {
    let explicit = ProcessParams {
        width: Some(640),
        ..Default::default()
    };
    // Without a prompt: just the explicit parameters.
    let v = file_variants(&None, "a.jpg", &explicit);
    assert_eq!(v.len(), 1);
    assert_eq!(v[0].width, Some(640));
    // With one: each resolved variant under the explicit flags.
    let mut f = answer("a.jpg", "webp");
    f.types = Some(vec!["webp".into(), "avif".into()]);
    let plan = prompt_plan(&vec!["a.jpg".to_string()], &vec![f]);
    let v = file_variants(&Some(plan), "a.jpg", &explicit);
    assert_eq!(v.len(), 2);
    assert_eq!(v[1].format.as_deref(), Some("avif"));
    assert_eq!(v[1].width, Some(640));
    assert_eq!(job_label("a.jpg", &v[1]), "a.jpg_avif");
    // A file the prompt said nothing about gets the explicit flags alone.
    let plan = prompt_plan(&vec![], &vec![]);
    let v = file_variants(&Some(plan), "b.jpg", &explicit);
    assert_eq!(v.len(), 1);
    assert_eq!(v[0].width, Some(640));
    assert_eq!(job_label("b.jpg", &v[0]), "b.jpg");
}

#[test]
fn prompt_summary_lists_each_input() {
    let mut f = answer("a.jpg", "webp");
    f.types = Some(vec!["webp".into(), "avif".into()]);
    let names = vec!["a.jpg".to_string(), "b.jpg".to_string(), "c.jpg".to_string()];
    let plan = prompt_plan(&names, &vec![f, answer("b.jpg", "png")]);
    let lines = print_prompt_summary(&names, &plan);
    assert_eq!(
        lines,
        vec![
            "Interpreted:".to_string(),
            "  a.jpg →".to_string(),
            "    webp".to_string(),
            "    avif".to_string(),
            "  b.jpg → png".to_string(),
        ]
    );
}

#[test]
fn merging_twice_is_merging_once() {
    let base = ProcessParams {
        format: Some("jpg".into()),
        quality: Some(50),
        ..Default::default()
    };
    let o = ProcessParams {
        quality: Some(90),
        ..Default::default()
    };
    let once = merge_params(base.clone(), o.clone());
    let twice = merge_params(merge_params(base, o.clone()), o);
    assert_eq!(once.quality, twice.quality);
    assert_eq!(once.format, twice.format);
    assert_eq!(twice.quality, Some(90));
}

#[test]
fn unset_params_send_an_empty_query() {
    let p = ProcessParams {
        width: Some(0),
        height: Some(0),
        clarity: Some(false),
        remove_background: Some(false),
        ..Default::default()
    };
    assert!(build_squish_query(&p).is_empty());
}

#[test]
fn split_sends_only_its_op_and_every_query_leads_with_it() {
    let p = PdfParams::for_op(
        " SPLIT ",
        PdfOptions {
            dpi: Some(300),
            quality: Some(10),
            ..Default::default()
        },
    )
    .unwrap();
    assert_eq!(build_pdf_query(&p), vec![("op", "split".to_string())]);
    let p = PdfParams::for_op("Optimize", PdfOptions::default()).unwrap();
    assert_eq!(build_pdf_query(&p)[0], ("op", "optimize".to_string()));
}

#[test]
fn pdf_errors_name_what_was_wrong() {
    let e = PdfParams::for_op(" Flatten", PdfOptions::default()).unwrap_err();
    assert_eq!(
        e.message(),
        "Unknown PDF operation 'flatten'. Use optimize, extract, rasterize or split for a PDF, or create to build a PDF from images."
    );
    let e = PdfParams::for_op(
        "extract",
        PdfOptions {
            format: Some("BMP".into()),
            ..Default::default()
        },
    )
    .unwrap_err();
    assert_eq!(
        e.message(),
        "Unsupported type 'BMP' for op extract. Use one of: original, png, jpg, webp, avif, jxl."
    );
    let e = PdfParams::for_op(
        "rasterize",
        PdfOptions {
            format: Some("original".into()),
            ..Default::default()
        },
    )
    .unwrap_err();
    assert_eq!(
        e.message(),
        "Unsupported type 'original' for op rasterize. Use one of: png, jpg, webp, avif, jxl."
    );
    let e = PdfParams::for_op(
        "create",
        PdfOptions {
            page: Some(" A3".into()),
            ..Default::default()
        },
    )
    .unwrap_err();
    assert_eq!(e.message(), "Unknown page size 'a3'. Use fit, a4, or letter.");
    let p = PdfParams {
        op: "create".into(),
        ..Default::default()
    };
    assert_eq!(
        check_pdf_path_op(&p).unwrap_err().message(),
        "--op create builds a PDF from images. To make this PDF smaller, use --op optimize."
    );
    assert!(check_pdf_path_op(&PdfParams {
        op: "split".into(),
        ..Default::default()
    })
    .is_ok());
}

#[test]
fn other_error_texts() {
    assert_eq!(
        MochifyError::InvalidBrightness { brightness: -101 }.message(),
        "Invalid --brightness -101. Use -100 (darkest) to 100 (brightest)."
    );
    assert_eq!(
        MochifyError::InvalidQuality { quality: 101 }.message(),
        "Invalid --quality 101. Use 1–100."
    );
    assert_eq!(
        MochifyError::InvalidRotation { rotation: 45 }.message(),
        "Invalid --rotation 45. Use 0, 90, 180, or 270."
    );
    assert_eq!(
        MochifyError::Api {
            status: "500 Internal Server Error".into(),
            body: "boom".into()
        }
        .message(),
        "API error 500 Internal Server Error: boom"
    );
    assert!(rate_limit_error(true).message().contains("Seller: 300/month"));
    assert!(rate_limit_error(false).message().contains("3/month per IP"));
    assert!(MochifyError::MissingPdfOp.message().starts_with("Specify a PDF operation"));
    assert!(MochifyError::MixedPdfsAndImages.message().starts_with("Can't mix"));
    assert!(MochifyError::CreateGivenPdfs.message().contains("pass images, not PDFs"));
    assert!(MochifyError::UsageNeedsAuth.message().starts_with("Usage tracking requires"));
    assert!(MochifyError::AuthTimedOut.message().starts_with("Authorization timed out"));
    assert!(MochifyError::UnknownHdrMode { mode: "x".into() }
        .message()
        .starts_with("Unknown --hdr mode 'x'."));
}

#[test]
fn statuses_decide_the_outcome() {
    assert_eq!(status_outcome(200, true), StatusOutcome::Success);
    assert_eq!(status_outcome(204, false), StatusOutcome::Success);
    assert_eq!(status_outcome(429, true), StatusOutcome::RateLimited);
    assert_eq!(status_outcome(429, false), StatusOutcome::Failed);
    assert_eq!(status_outcome(404, true), StatusOutcome::Failed);
    assert_eq!(status_outcome(300, true), StatusOutcome::Failed);
}

#[test]
fn building_message_counts_images() {
    assert_eq!(building_pdf_message(1), "Building PDF from 1 image...");
    assert_eq!(building_pdf_message(3), "Building PDF from 3 images...");
}

#[test]
fn tokens_already_normalised_are_checked_exactly() {
    assert_eq!(hdr_mode_from_token("keep".to_string()).unwrap(), "1");
    assert_eq!(hdr_mode_from_token("synthesise".to_string()).unwrap(), "generate");
    assert_eq!(
        hdr_mode_from_token("Keep".to_string()).unwrap_err().message(),
        "Unknown --hdr mode 'Keep'. Use 'preserve' (keep a gain map the source has) or 'generate' (also create one for an SDR source)."
    );
    assert_eq!(image_type_from_token("jpeg".to_string()), "jpg");
    assert_eq!(image_type_from_token("webp".to_string()), "webp");
    assert_eq!(lossless_refusal_of_type("png".to_string()), None);
    assert_eq!(lossless_refusal_of_type("avif".to_string()), Some("avif".to_string()));
    assert_eq!(
        pdf_type_from_token("rasterize", " JPEG ".to_string(), "jpeg".to_string()).unwrap(),
        Some("jpg".to_string())
    );
    assert_eq!(
        pdf_type_from_token("rasterize", "Original".to_string(), "original".to_string())
            .unwrap_err()
            .message(),
        "Unsupported type 'Original' for op rasterize. Use one of: png, jpg, webp, avif, jxl."
    );
    assert_eq!(
        pdf_type_from_token("extract", "original".to_string(), "original".to_string()).unwrap(),
        Some("original".to_string())
    );
    assert_eq!(page_from_token("letter".to_string()).unwrap(), Some("letter".to_string()));
    assert_eq!(
        page_from_token("a5".to_string()).unwrap_err().message(),
        "Unknown page size 'a5'. Use fit, a4, or letter."
    );
}

#[test]
fn extensions_decide_pdf_mime_and_saved_type() {
    assert!(is_pdf_extension(&Some("PdF".to_string())));
    assert!(!is_pdf_extension(&Some("pdfx".to_string())));
    assert!(!is_pdf_extension(&None));
    assert_eq!(mime_for_ext(&Some("heif".to_string())), "image/heic");
    assert_eq!(mime_for_ext(&Some("JPG".to_string())), "application/octet-stream");
    assert_eq!(mime_for_ext(&None), "application/octet-stream");
    assert_eq!(squish_ext_for(&Some("webp".to_string()), Some("png".to_string())), "webp");
    assert_eq!(squish_ext_for(&None, Some("png".to_string())), "png");
    assert_eq!(squish_ext_for(&None, None), "jpg");
    assert_eq!(strip_invalid_chars(" a/b:c*d?\"<>|\t "), " abcd ");
}

#[test]
fn results_go_to_the_asked_directory_else_beside_the_input() {
    assert_eq!(output_dir(&Some("out".to_string()), "pics/photo.jpg"), "out");
    assert_eq!(output_dir(&None, "pics/photo.jpg"), "pics");
    assert_eq!(output_dir(&None, "photo.jpg"), "");
    assert_eq!(output_dir(&None, "/"), ".");
    assert_eq!(output_dir_for(&None, None), ".");
    assert_eq!(output_dir_for(&None, Some("a".to_string())), "a");
}

#[test]
fn only_the_same_directory_and_extension_land_on_the_input() {
    assert!(lands_on_input(true, "jpg", "pics/photo.jpg"));
    assert!(!lands_on_input(true, "webp", "pics/photo.jpg"));
    assert!(!lands_on_input(false, "jpg", "pics/photo.jpg"));
    assert!(!lands_on_input(true, "jpg", "pics/photo"));
    assert!(lands_on_input_ext(true, "png", &Some("png".to_string())));
    assert!(!lands_on_input_ext(true, "png", &None));
}

#[test]
fn the_free_name_search_counts_up_until_a_name_is_free() {
    assert_eq!(name_search_step(0, true), NameStep::Try(1));
    assert_eq!(name_search_step(7, true), NameStep::Try(8));
    assert_eq!(name_search_step(7, false), NameStep::Use);
    let taken = ["a.b", "a_1.b", "a_2.b"];
    let mut n = 0;
    loop {
        let name = numbered_name("a", "b", n);
        match name_search_step(n, taken.contains(&name.as_str())) {
            NameStep::Use => break,
            NameStep::Try(m) => n = m,
        }
    }
    assert_eq!(numbered_name("a", "b", n), "a_3.b");
}

#[test]
fn sanitised_names_have_no_surrounding_whitespace() {
    assert_eq!(sanitize_output_name("\u{a0} my:photo \t\u{3000}"), "myphoto");
    assert_eq!(sanitize_output_name(" \u{2003} "), "");
}

#[test]
fn wire_hdr_values_normalise_to_themselves() {
    for mode in ["preserve", " GENERATE ", "Yes", "make"] {
        let once = mochify::modes::normalize_hdr_mode(mode).unwrap();
        assert_eq!(mochify::modes::normalize_hdr_mode(&once).unwrap(), once);
    }
}

#[test]
fn output_names_follow_from_the_input_path() {
    let none = ProcessParams::default();
    assert_eq!(
        squish_output_base("pics/photo.jpg", &none, true),
        Some(("photo_mochified".to_string(), "jpg".to_string()))
    );
    assert_eq!(
        squish_output_base("pics/photo.jpg", &none, false),
        Some(("photo".to_string(), "jpg".to_string()))
    );
    let webp = ProcessParams {
        format: Some("webp".into()),
        ..Default::default()
    };
    assert_eq!(
        squish_output_base("pics/photo.jpg", &webp, true),
        Some(("photo".to_string(), "webp".to_string()))
    );
    assert_eq!(squish_output_base("/", &none, true), None);
    let optimize = PdfParams::for_op("optimize", PdfOptions::default()).unwrap();
    assert_eq!(
        pdf_output_base("docs/report.pdf", &optimize),
        Some(("report_compressed".to_string(), "pdf"))
    );
    assert_eq!(pdf_output_base("..", &optimize), None);
    let create = PdfParams::for_op("create", PdfOptions::default()).unwrap();
    assert_eq!(
        pdf_create_base(None, "scans/page1.png", &create),
        Some(("page1".to_string(), "pdf"))
    );
    assert_eq!(
        pdf_create_base(Some(" album/2024 "), "/", &create),
        Some(("album2024".to_string(), "pdf"))
    );
    assert_eq!(pdf_create_base(None, "/", &create), None);
}

#[test]
fn plan_keys_are_the_inputs_file_names() {
    let paths = vec!["pics/a b.jpg".to_string(), "c.png".to_string()];
    assert_eq!(
        input_file_names(&paths),
        Some(vec!["a b.jpg".to_string(), "c.png".to_string()])
    );
    assert_eq!(input_file_names(&vec!["x/..".to_string()]), None);
    assert_eq!(display_name("pics/a b.jpg"), "a b.jpg");
    assert_eq!(display_name("/"), "");
    assert_eq!(display_names(&paths), vec!["a b.jpg".to_string(), "c.png".to_string()]);
    let plan = plan_for_inputs(&paths, &vec![answer("A_B.JPG", "webp"), answer("c.png", "avif")])
        .unwrap();
    assert_eq!(plan[0].0, "a b.jpg");
    assert_eq!(plan[1].0, "c.png");
    assert!(plan_for_inputs(&vec!["/".to_string()], &vec![]).is_none());
    let explicit = ProcessParams::default();
    let v = variants_for_path(&Some(plan), "pics/a b.jpg", &explicit);
    assert_eq!(v.len(), 1);
    assert_eq!(v[0].format.as_deref(), Some("webp"));
}

#[test]
fn trimming_removes_unicode_white_space_only() {
    assert_eq!(trim_str(" \t\u{2028}a b\u{3000}\n"), "a b");
    assert_eq!(trim_str("\u{200b}x"), "\u{200b}x");
    assert_eq!(trim_str("   "), "");
}
