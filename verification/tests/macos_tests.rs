use print_queue::macos::{
    compile_failure_message, configure_args, helper_failure_message, helper_needs_build,
    helper_printer, helper_source_path, macos_native_settings, macos_page_centipoints,
    macos_paper_size_centipoints, macos_paper_size_of, macos_print_args, points_to_text,
    sample_context_for_keyword, sample_context_for_normalized,
    swiftc_args, MacOSPrintConfiguration,
};
use print_queue::models::{Preset, Timestamp};

fn text(v: Vec<char>) -> String {
    v.into_iter().collect()
}

fn native_preset() -> Preset {
    let mut p = Preset::new("P".to_string(), "4x6".to_string());
    p.macos_print_info_base64 = Some("INFO".to_string());
    p.macos_page_format_base64 = Some("PAGE".to_string());
    p.macos_print_settings_base64 = Some("SET".to_string());
    p.copies = 2;
    p
}

#[test]
fn helper_paths_and_printers() {
    assert_eq!(helper_source_path("/app"), "/app/macos-helper/PrintQueueMacHelper.swift");
    assert_eq!(helper_source_path("/app/"), "/app/macos-helper/PrintQueueMacHelper.swift");
    let p = helper_printer("EPSON_1".to_string(), "EPSON".to_string(), true);
    assert_eq!(p.id, "EPSON_1");
    assert_eq!(p.name, "EPSON");
    assert_eq!(p.driver, "");
    assert!(p.is_default && p.is_online);
    let c = MacOSPrintConfiguration {
        printer_name: "EPSON".to_string(),
        print_info_base64: "a".to_string(),
        page_format_base64: "b".to_string(),
        print_settings_base64: "c".to_string(),
    };
    assert_eq!(c.printer_name, "EPSON");
}

#[test]
fn paper_sizes_are_case_insensitive() {
    assert_eq!(macos_paper_size_centipoints("EPKG.NMgn"), Some((28800, 43200)));
    assert_eq!(macos_paper_size_centipoints("KG"), Some((28800, 43200)));
    assert_eq!(macos_paper_size_centipoints("Letter.Fullbleed"), Some((61200, 79200)));
    assert_eq!(macos_paper_size_centipoints("A6"), Some((29764, 41953)));
    assert_eq!(macos_paper_size_centipoints("8.5x11"), None);
    assert_eq!(macos_paper_size_centipoints("poster"), None);
}

#[test]
fn page_of_a_preset() {
    let mut p = Preset::new("P".to_string(), "5x7".to_string());
    assert_eq!(macos_page_centipoints(&p), (36000, 50400));
    p.settings = vec![
        ("PageSize".to_string(), "EP8x10in".to_string()),
        ("orientation-requested".to_string(), "5".to_string()),
    ];
    assert_eq!(macos_page_centipoints(&p), (72000, 57600));
    p.settings = vec![("PageSize".to_string(), "odd".to_string())];
    assert_eq!(macos_page_centipoints(&p), (28800, 43200));
}

#[test]
fn sample_contexts() {
    let c = sample_context_for_keyword(Some(" 4R "));
    assert!(c.wants_sample_image);
    assert_eq!(c.paper_size, Some((28800, 43200)));
    let c = sample_context_for_keyword(Some("A4"));
    assert!(!c.wants_sample_image);
    assert_eq!(c.paper_size, Some((59528, 84189)));
    let c = sample_context_for_keyword(None);
    assert!(!c.wants_sample_image);
    assert_eq!(c.paper_size, None);
}

#[test]
fn points_are_written_like_floats() {
    assert_eq!(text(points_to_text(28800)), "288");
    assert_eq!(text(points_to_text(59528)), "595.28");
    assert_eq!(text(points_to_text(28910)), "289.1");
    assert_eq!(text(points_to_text(5)), "0.05");
    assert_eq!(text(points_to_text(0)), "0");
    for n in [28800u32, 59528, 28910, 41953, 84189, 5, 0, 100800] {
        let f = (n as f64) / 100.0;
        assert_eq!(text(points_to_text(n)), f.to_string());
    }
}

#[test]
fn configure_command_lines() {
    assert_eq!(
        configure_args(Some("  "), None, Some((28800, 43200))),
        vec!["configure", "--paper-width", "288", "--paper-height", "432"]
    );
    assert_eq!(
        configure_args(Some("EPSON"), Some("/repo/public/4x6.jpg"), None),
        vec!["configure", "--printer", "EPSON", "--sample-file", "/repo/public/4x6.jpg"]
    );
    assert_eq!(configure_args(None, None, None), vec!["configure"]);
}

#[test]
fn native_settings_are_required_in_order() {
    let mut p = Preset::new("P".to_string(), "4x6".to_string());
    assert_eq!(
        macos_native_settings(&p).err(),
        Some("Preset is missing macOS native printer settings".to_string())
    );
    p.macos_print_info_base64 = Some("I".to_string());
    assert_eq!(
        macos_print_args(&p, "/tmp/a.pdf").err(),
        Some("Preset is missing macOS page format settings".to_string())
    );
    p.macos_page_format_base64 = Some("F".to_string());
    assert_eq!(
        macos_native_settings(&p).err(),
        Some("Preset is missing macOS print settings".to_string())
    );
    p.macos_print_settings_base64 = Some("S".to_string());
    assert_eq!(
        macos_native_settings(&p),
        Ok(("I".to_string(), "F".to_string(), "S".to_string()))
    );
}

#[test]
fn print_command_lines() {
    let mut p = native_preset();
    p.printer_id = Some("EPSON".to_string());
    let base = vec![
        "print", "--file", "/tmp/a.pdf", "--copies", "2", "--print-info-b64", "INFO",
        "--page-format-b64", "PAGE", "--print-settings-b64", "SET",
    ];
    let mut with_printer = base.clone();
    with_printer.extend(["--printer", "EPSON"]);
    assert_eq!(macos_print_args(&p, "/tmp/a.pdf").unwrap(), with_printer);
    p.macos_printer_name = Some(" ".to_string());
    assert_eq!(macos_print_args(&p, "/tmp/a.pdf").unwrap(), base);
    p.macos_printer_name = Some("Native".to_string());
    assert_eq!(macos_print_args(&p, "/tmp/a.pdf").unwrap().last().unwrap(), "Native");
}

#[test]
fn helper_failures() {
    assert_eq!(helper_failure_message("  first\nlast line\n \n", Some(1)), "last line");
    assert_eq!(helper_failure_message("a\n  b  \n", Some(1)), "  b");
    assert_eq!(helper_failure_message("single", None), "single");
    assert_eq!(helper_failure_message(" \n ", Some(2)), "macOS helper exited with code Some(2)");
    assert_eq!(helper_failure_message("", Some(-3)), "macOS helper exited with code Some(-3)");
    assert_eq!(helper_failure_message("", None), "macOS helper exited with code None");
}

#[test]
fn helper_build_decisions() {
    let t1 = Timestamp { seconds: 100, nanos: 0 };
    let t2 = Timestamp { seconds: 100, nanos: 1 };
    assert_eq!(
        helper_needs_build(Err("No such file".to_string()), None),
        Err("Missing macOS helper source: No such file".to_string())
    );
    assert_eq!(helper_needs_build(Ok(Some(t2)), Some(Some(t1))), Ok(true));
    assert_eq!(helper_needs_build(Ok(Some(t1)), Some(Some(t1))), Ok(false));
    assert_eq!(helper_needs_build(Ok(Some(t1)), Some(Some(t2))), Ok(false));
    assert_eq!(helper_needs_build(Ok(Some(t1)), None), Ok(true));
    assert_eq!(helper_needs_build(Ok(None), Some(Some(t1))), Ok(false));
    assert_eq!(helper_needs_build(Ok(Some(t1)), Some(None)), Ok(true));
    assert_eq!(
        swiftc_args("/s.swift", "/b"),
        vec![
            "swiftc", "-O", "-framework", "AppKit", "-framework", "Foundation", "-framework",
            "PDFKit", "/s.swift", "-o", "/b"
        ]
    );
    assert_eq!(compile_failure_message(" error: x \n"), "macOS helper compile failed: error: x");
}

#[test]
fn lower_cased_lookups() {
    assert_eq!(macos_paper_size_of("epkg"), Some((28800, 43200)));
    assert_eq!(macos_paper_size_of("EPKG"), None);
    let c = sample_context_for_normalized("kg");
    assert!(c.wants_sample_image);
    assert_eq!(c.paper_size, Some((28800, 43200)));
    assert_eq!(sample_context_for_normalized(" kg ").paper_size, None);
}
