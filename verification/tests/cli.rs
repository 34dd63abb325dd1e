use mochify::cli::{resolve_pdf_params, Args};
use mochify::meta::{warn_if_hdr_dropped, SquishMeta};
use mochify::params::{format_params_summary, merge_params, ProcessParams};
use mochify::pdf::PdfPrompt;

/// The command line `mochify doc.pdf` plus whatever `set` changes.
fn args(set: impl FnOnce(&mut Args)) -> Args {
    let mut a = Args {
        files: vec!["doc.pdf".to_string()],
        ..Default::default()
    };
    set(&mut a);
    a
}

fn pdf_prompt(op: &str) -> PdfPrompt {
    PdfPrompt {
        op: op.into(),
        format: Some("png".into()),
        dpi: Some(150),
        quality: Some(85),
        max_width: Some(0),
        page: None,
        combine: None,
    }
}

#[test]
fn explicit_override_wins_unset_falls_back_to_prompt() {
    let base = ProcessParams {
        format: Some("jpg".into()),
        width: Some(800),
        ..Default::default()
    };
    let overrides = ProcessParams {
        format: Some("avif".into()),
        ..Default::default()
    };
    let merged = merge_params(base, overrides);
    assert_eq!(merged.format.as_deref(), Some("avif")); // explicit flag wins
    assert_eq!(merged.width, Some(800)); // unset → prompt value
}

#[test]
fn out_name_suffix_always_comes_from_prompt() {
    let base = ProcessParams {
        out_name_suffix: Some("_500w".into()),
        ..Default::default()
    };
    let overrides = ProcessParams {
        out_name_suffix: Some("_ignored".into()),
        ..Default::default()
    };
    let merged = merge_params(base, overrides);
    assert_eq!(merged.out_name_suffix.as_deref(), Some("_500w"));
}

#[test]
fn summary_lists_set_params() {
    let p = ProcessParams {
        format: Some("webp".into()),
        width: Some(1200),
        height: Some(800),
        remove_background: Some(true),
        ..Default::default()
    };
    let s = format_params_summary(&p);
    assert!(s.contains("webp"));
    assert!(s.contains("1200 × 800"));
    assert!(s.contains("remove bg"));
}

#[test]
fn summary_of_empty_params_is_original_settings() {
    assert_eq!(
        format_params_summary(&ProcessParams::default()),
        "original settings"
    );
}

#[test]
fn pdf_rasterize_applies_png_150_defaults() {
    let p = resolve_pdf_params(None, &args(|a| a.op = Some("rasterize".into()))).unwrap();
    assert_eq!(p.op, "rasterize");
    assert_eq!(p.format.as_deref(), Some("png"));
    assert_eq!(p.dpi, Some(150));
}

#[test]
fn pdf_split_drops_render_params() {
    let p = resolve_pdf_params(
        None,
        &args(|a| {
            a.op = Some("split".into());
            a.format = Some("png".into());
            a.dpi = Some(300);
        }),
    )
    .unwrap();
    assert_eq!(p.op, "split");
    assert_eq!(p.format, None);
    assert_eq!(p.dpi, None);
}

#[test]
fn pdf_explicit_flags_override_prompt() {
    let p = resolve_pdf_params(
        Some(pdf_prompt("rasterize")),
        &args(|a| {
            a.format = Some("webp".into());
            a.dpi = Some(300);
            a.quality = Some(80);
        }),
    )
    .unwrap();
    assert_eq!(p.op, "rasterize"); // op came from the prompt
    assert_eq!(p.format.as_deref(), Some("webp")); // explicit flag wins
    assert_eq!(p.dpi, Some(300));
    assert_eq!(p.quality, Some(80));
}

#[test]
fn pdf_prompt_seeds_op_when_no_flag() {
    let p = resolve_pdf_params(Some(pdf_prompt("split")), &args(|_| {})).unwrap();
    assert_eq!(p.op, "split");
}

#[test]
fn pdf_requires_op_or_prompt() {
    assert!(resolve_pdf_params(None, &args(|_| {})).is_err());
}

#[test]
fn pdf_rejects_unknown_op() {
    assert!(resolve_pdf_params(None, &args(|a| a.op = Some("flatten".into()))).is_err());
}

#[test]
fn pdf_optimize_maps_dpi_and_width_to_image_caps() {
    let p = resolve_pdf_params(
        None,
        &args(|a| {
            a.op = Some("optimize".into());
            a.dpi = Some(96);
            a.max_width = Some(1200);
            a.quality = Some(70);
        }),
    )
    .unwrap();
    assert_eq!(p.max_dpi, Some(96)); // --dpi means maxDpi here
    assert_eq!(p.max_dimension, Some(1200)); // --max-width means maxDimension here
    assert_eq!(p.dpi, None);
    assert_eq!(p.quality, Some(70));
}

#[test]
fn pdf_extract_keeps_original_and_width_cap() {
    let p = resolve_pdf_params(
        None,
        &args(|a| {
            a.op = Some("extract".into());
            a.format = Some("original".into());
            a.max_width = Some(1600);
        }),
    )
    .unwrap();
    assert_eq!(p.format.as_deref(), Some("original"));
    assert_eq!(p.max_width, Some(1600));
}

#[test]
fn pdf_rasterize_rejects_original_which_only_extract_takes() {
    assert!(resolve_pdf_params(
        None,
        &args(|a| {
            a.op = Some("rasterize".into());
            a.format = Some("original".into());
        })
    )
    .is_err());
}

#[test]
fn pdf_format_aliases_jpeg_to_jpg() {
    let p = resolve_pdf_params(
        None,
        &args(|a| {
            a.op = Some("rasterize".into());
            a.format = Some("JPEG".into());
        }),
    )
    .unwrap();
    assert_eq!(p.format.as_deref(), Some("jpg"));
}

#[test]
fn pdf_create_takes_page_and_no_combine() {
    let p = resolve_pdf_params(
        None,
        &args(|a| {
            a.op = Some("create".into());
            a.page = Some("A4".into());
            a.no_combine = true;
        }),
    )
    .unwrap();
    assert_eq!(p.op, "create");
    assert_eq!(p.page.as_deref(), Some("a4"));
    assert_eq!(p.combine, Some(false));
}

#[test]
fn pdf_create_rejects_unknown_page_size() {
    assert!(resolve_pdf_params(
        None,
        &args(|a| {
            a.op = Some("create".into());
            a.page = Some("a3".into());
        })
    )
    .is_err());
}

#[test]
fn quality_flags_summarise() {
    let s = format_params_summary(&ProcessParams {
        quality: Some(70),
        smart_compress: Some(true),
        brightness: Some(-20),
        optimize_for_web: Some(true),
        lossless: Some(true),
        ..Default::default()
    });
    assert!(s.contains("quality 70"));
    assert!(s.contains("smart compress"));
    assert!(s.contains("brightness -20"));
    assert!(s.contains("optimize for web"));
    assert!(s.contains("lossless"));
}

#[test]
fn hdr_summary_names_the_mode() {
    let s = format_params_summary(&ProcessParams {
        hdr: Some("generate".into()),
        ..Default::default()
    });
    assert!(s.contains("hdr (generate)"));
}

#[test]
fn hdr_note_only_fires_when_the_output_carries_none() {
    // Nothing requested → nothing to say, whatever the header holds.
    let quiet = ProcessParams::default();
    assert_eq!(
        warn_if_hdr_dropped(
            &quiet,
            &SquishMeta {
                hdr: Some("false".into()),
                ..Default::default()
            },
        ),
        None
    );
    // Requested and delivered → also nothing to say.
    let asked = ProcessParams {
        hdr: Some("generate".into()),
        format: Some("jpg".into()),
        ..Default::default()
    };
    assert_eq!(
        warn_if_hdr_dropped(
            &asked,
            &SquishMeta {
                hdr: Some("generated".into()),
                ..Default::default()
            },
        ),
        None
    );
}
