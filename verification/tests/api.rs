use mochify::modes::normalize_hdr_mode;
use mochify::naming::sanitize_output_name;
use mochify::params::{build_squish_query, ProcessParams};
use mochify::pdf::{build_pdf_query, pdf_output_name, PdfParams};
use mochify::prompt::{expand_file_variants, PromptFileResult, SizeEntry};

fn sample_result() -> PromptFileResult {
    PromptFileResult {
        filename: "photo.jpg".into(),
        format: Some("webp".into()),
        width: Some(800),
        height: None,
        crop: None,
        rotate: 0,
        output_name: None,
        clarity: None,
        remove_background: None,
        background: None,
        hdr: None,
        quality: None,
        smart_compress: None,
        brightness: None,
        optimize_for_web: None,
        lossless: None,
        types: None,
        sizes: None,
    }
}

#[test]
fn single_variant_has_no_suffix() {
    let v = expand_file_variants(&sample_result());
    assert_eq!(v.len(), 1);
    assert_eq!(v[0].format.as_deref(), Some("webp"));
    assert_eq!(v[0].width, Some(800));
    assert_eq!(v[0].out_name_suffix, None);
}

#[test]
fn multi_format_suffixes_each_variant() {
    let mut f = sample_result();
    f.types = Some(vec!["webp".into(), "avif".into()]);
    let v = expand_file_variants(&f);
    assert_eq!(v.len(), 2);
    assert_eq!(v[0].out_name_suffix.as_deref(), Some("_webp"));
    assert_eq!(v[1].out_name_suffix.as_deref(), Some("_avif"));
}

#[test]
fn multi_size_uses_dimension_suffix() {
    let mut f = sample_result();
    f.sizes = Some(vec![
        SizeEntry {
            width: 500,
            height: 0,
        },
        SizeEntry {
            width: 1000,
            height: 1000,
        },
    ]);
    let v = expand_file_variants(&f);
    assert_eq!(v.len(), 2);
    assert_eq!(v[0].out_name_suffix.as_deref(), Some("_500w"));
    assert_eq!(v[1].out_name_suffix.as_deref(), Some("_1000x1000"));
}

#[test]
fn multi_size_and_format_combine_suffixes() {
    let mut f = sample_result();
    f.types = Some(vec!["webp".into(), "avif".into()]);
    f.sizes = Some(vec![
        SizeEntry {
            width: 500,
            height: 0,
        },
        SizeEntry {
            width: 1000,
            height: 0,
        },
    ]);
    let v = expand_file_variants(&f);
    assert_eq!(v.len(), 4); // 2 sizes × 2 formats
    assert_eq!(v[0].out_name_suffix.as_deref(), Some("_500w_webp"));
    assert_eq!(v[1].out_name_suffix.as_deref(), Some("_500w_avif"));
    assert_eq!(v[2].out_name_suffix.as_deref(), Some("_1000w_webp"));
    assert_eq!(v[3].out_name_suffix.as_deref(), Some("_1000w_avif"));
}

#[test]
fn rotate_zero_is_omitted_nonzero_kept() {
    assert_eq!(expand_file_variants(&sample_result())[0].rotation, None);
    let mut f = sample_result();
    f.rotate = 90;
    assert_eq!(expand_file_variants(&f)[0].rotation, Some(90));
}

#[test]
fn propagates_remove_background_and_background() {
    let mut f = sample_result();
    f.remove_background = Some(true);
    f.background = Some("white".into());
    let v = expand_file_variants(&f);
    assert_eq!(v[0].remove_background, Some(true));
    assert_eq!(v[0].background.as_deref(), Some("white"));
}

#[test]
fn default_format_is_jpg_when_missing() {
    let mut f = sample_result();
    f.format = None;
    assert_eq!(expand_file_variants(&f)[0].format.as_deref(), Some("jpg"));
}

#[test]
fn build_query_drops_zero_dimensions() {
    let params = ProcessParams {
        format: Some("webp".into()),
        width: Some(0),
        height: Some(0),
        ..Default::default()
    };
    let q = build_squish_query(&params);
    assert!(q.iter().any(|(k, v)| *k == "type" && v == "webp"));
    assert!(!q.iter().any(|(k, _)| *k == "width"));
    assert!(!q.iter().any(|(k, _)| *k == "height"));
}

#[test]
fn strip_exif_only_sent_when_set() {
    // Default (None) — metadata handling left to the service's default.
    let none = build_squish_query(&ProcessParams::default());
    assert!(!none.iter().any(|(k, _)| *k == "stripExif"));
    // Explicit preserve.
    let keep = build_squish_query(&ProcessParams {
        strip_exif: Some(false),
        ..Default::default()
    });
    assert!(keep.iter().any(|(k, v)| *k == "stripExif" && v == "false"));
}

#[test]
fn build_query_includes_all_flags() {
    let params = ProcessParams {
        format: Some("png".into()),
        width: Some(1200),
        crop: Some(true),
        rotation: Some(90),
        clarity: Some(true),
        remove_background: Some(true),
        background: Some("white".into()),
        ..Default::default()
    };
    let q = build_squish_query(&params);
    let has = |key: &str, val: &str| q.iter().any(|(k, v)| *k == key && v == val);
    assert!(has("width", "1200"));
    assert!(has("crop", "true"));
    assert!(has("rotate", "90"));
    assert!(has("clarity", "1"));
    assert!(has("removeBackground", "1"));
    assert!(has("background", "white"));
}

#[test]
fn sanitize_strips_invalid_chars_and_trims() {
    assert_eq!(
        sanitize_output_name("  hero/image:final  "),
        "heroimagefinal"
    );
    assert_eq!(sanitize_output_name("logo*?\"<>|"), "logo");
    assert_eq!(sanitize_output_name("clean-name_1"), "clean-name_1");
}

#[test]
fn pdf_split_query_is_op_only() {
    let params = PdfParams {
        op: "split".into(),
        format: Some("png".into()),
        dpi: Some(150),
        quality: Some(90),
        ..Default::default()
    };
    let q = build_pdf_query(&params);
    assert_eq!(q, vec![("op", "split".to_string())]);
}

#[test]
fn pdf_rasterize_query_includes_render_params() {
    let params = PdfParams {
        op: "rasterize".into(),
        format: Some("webp".into()),
        dpi: Some(300),
        quality: Some(85),
        ..Default::default()
    };
    let q = build_pdf_query(&params);
    let has = |key: &str, val: &str| q.iter().any(|(k, v)| *k == key && v == val);
    assert!(has("op", "rasterize"));
    assert!(has("type", "webp"));
    assert!(has("dpi", "300"));
    assert!(has("quality", "85"));
}

#[test]
fn pdf_optimize_query_sends_image_caps_not_type() {
    let params = PdfParams {
        op: "optimize".into(),
        format: Some("webp".into()), // optimize always writes JPEG; type is not a param
        quality: Some(75),
        max_dpi: Some(150),
        max_dimension: Some(2000),
        min_size: Some(0),
        ..Default::default()
    };
    let q = build_pdf_query(&params);
    let has = |key: &str, val: &str| q.iter().any(|(k, v)| *k == key && v == val);
    assert!(has("quality", "75"));
    assert!(has("maxDpi", "150"));
    assert!(has("maxDimension", "2000"));
    assert!(has("minSize", "0")); // 0 disables the floor, so it must still be sent
    assert!(!q.iter().any(|(k, _)| *k == "type"));
}

#[test]
fn pdf_extract_query_sends_type_and_width_cap() {
    let params = PdfParams {
        op: "extract".into(),
        format: Some("original".into()),
        dpi: Some(300), // ignored by extract
        quality: Some(82),
        max_width: Some(1600),
        ..Default::default()
    };
    let q = build_pdf_query(&params);
    let has = |key: &str, val: &str| q.iter().any(|(k, v)| *k == key && v == val);
    assert!(has("type", "original"));
    assert!(has("quality", "82"));
    assert!(has("maxWidth", "1600"));
    assert!(!q.iter().any(|(k, _)| *k == "dpi"));
}

#[test]
fn pdf_create_query_sends_page_and_combine() {
    let params = PdfParams {
        op: "create".into(),
        quality: Some(85),
        dpi: Some(96),
        page: Some("a4".into()),
        combine: Some(false),
        ..Default::default()
    };
    let q = build_pdf_query(&params);
    let has = |key: &str, val: &str| q.iter().any(|(k, v)| *k == key && v == val);
    assert!(has("page", "a4"));
    assert!(has("combine", "0"));
    assert!(has("quality", "85"));
    assert!(has("dpi", "96"));
}

#[test]
fn pdf_output_names_match_what_each_op_returns() {
    assert_eq!(
        pdf_output_name("optimize", "report", None),
        ("report_compressed".to_string(), "pdf")
    );
    assert_eq!(
        pdf_output_name("extract", "report", None),
        ("report_images".to_string(), "zip")
    );
    assert_eq!(
        pdf_output_name("split", "report", None),
        ("report_pages".to_string(), "zip")
    );
    assert_eq!(
        pdf_output_name("rasterize", "report", None),
        ("report_rasterized".to_string(), "zip")
    );
    assert_eq!(
        pdf_output_name("create", "scan", Some(true)),
        ("scan".to_string(), "pdf")
    );
    assert_eq!(
        pdf_output_name("create", "scan", Some(false)),
        ("scan_pdfs".to_string(), "zip")
    );
}

#[test]
fn hdr_modes_normalize_to_wire_values() {
    assert_eq!(normalize_hdr_mode("preserve").unwrap(), "1");
    assert_eq!(normalize_hdr_mode("KEEP").unwrap(), "1");
    assert_eq!(normalize_hdr_mode("true").unwrap(), "1");
    assert_eq!(normalize_hdr_mode("generate").unwrap(), "generate");
    assert!(normalize_hdr_mode("maybe").is_err());
}

#[test]
fn hdr_is_sent_verbatim_and_omitted_when_unset() {
    let q = build_squish_query(&ProcessParams {
        hdr: Some("generate".into()),
        ..Default::default()
    });
    assert!(q.iter().any(|(k, v)| *k == "hdr" && v == "generate"));
    assert!(
        !build_squish_query(&ProcessParams::default())
            .iter()
            .any(|(k, _)| *k == "hdr")
    );
}

#[test]
fn quality_flags_reach_the_query() {
    let q = build_squish_query(&ProcessParams {
        quality: Some(70),
        smart_compress: Some(true),
        brightness: Some(-25),
        optimize_for_web: Some(true),
        lossless: Some(true),
        ..Default::default()
    });
    let has = |key: &str, val: &str| q.iter().any(|(k, v)| *k == key && v == val);
    assert!(has("quality", "70"));
    assert!(has("smartCompress", "1"));
    assert!(has("brightness", "-25"));
    assert!(has("optimizeForWeb", "1"));
    assert!(has("lossless", "1"));
}

#[test]
fn zero_brightness_and_false_flags_are_omitted() {
    let q = build_squish_query(&ProcessParams {
        brightness: Some(0),
        smart_compress: Some(false),
        optimize_for_web: Some(false),
        lossless: Some(false),
        ..Default::default()
    });
    assert!(q.is_empty());
}

#[test]
fn prompt_carries_quality_brightness_and_lossless() {
    // The prompt emits smartCompress/optimizeForWeb on every file, usually false.
    let mut f = sample_result();
    f.filename = "a.jpg".into();
    f.width = Some(0);
    f.height = Some(0);
    f.quality = Some(72);
    f.brightness = Some(25);
    f.smart_compress = Some(false);
    f.optimize_for_web = Some(true);
    f.lossless = Some(true);
    let v = &expand_file_variants(&f)[0];
    assert_eq!(v.quality, Some(72));
    assert_eq!(v.brightness, Some(25));
    assert_eq!(v.smart_compress, None); // false → not sent
    assert_eq!(v.optimize_for_web, Some(true));
    assert_eq!(v.lossless, Some(true));
}

#[test]
fn prompt_hdr_boolean_becomes_generate() {
    let mut f = sample_result();
    f.filename = "a.jpg".into();
    f.format = Some("jpg".into());
    f.width = Some(0);
    f.height = Some(0);
    f.hdr = Some(true);
    let v = expand_file_variants(&f);
    assert_eq!(v[0].hdr.as_deref(), Some("generate"));
    // hdr:false must not send the param at all.
    f.hdr = Some(false);
    assert_eq!(expand_file_variants(&f)[0].hdr, None);
}
