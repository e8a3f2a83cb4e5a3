use print_queue::cups::{
    cups_page_centipoints, cups_scaling_factor_text, cups_scaling_factor_text_by_keyword,
    lp_args, lp_outcome, lpoptions_args, page_size_key, paper_size_centipoints, ppd_path,
    preset_printer,
};
use print_queue::models::Preset;

const PPD: &str = "*PPD-Adobe: \"4.3\"\n\
*PageSize Letter/US Letter: \"<</PageSize[612 792]/ImagingBBox null>>setpagedevice\"\n\
   *PageSize EPKG.NMgn/KG (Borderless): \"<</PageSize[288 432]/cupsBorderlessScalingFactor 1.06>>setpagedevice\"\n\
*PageSize EP5x7.NMgn/5 x 7 in (Borderless): \"<</PageSize[360 504]/cupsBorderlessScalingFactor   1.045>>setpagedevice\"\r\n\
*PageSize A6.NMgn/A6: \"<</cupsBorderlessScalingFactor ..>>\"\n\
*PageSize A6.NMgn/A6 again: \"<</cupsBorderlessScalingFactor 1.2>>\"\n\
*PageSize EP8x10in.NMgn: \"<</PageSize[576 720]/cupsBorderlessScalingFactor 1.03>>\"\n";

fn with_settings(settings: &[(&str, &str)]) -> Preset {
    let mut p = Preset::new("P".to_string(), "4x6".to_string());
    p.settings = settings.iter().map(|(k, v)| (k.to_string(), v.to_string())).collect();
    p
}

#[test]
fn page_size_defaults_to_letter() {
    assert_eq!(page_size_key(&with_settings(&[])), "Letter");
    assert_eq!(page_size_key(&with_settings(&[("PageSize", "EPKG.NMgn")])), "EPKG.NMgn");
}

#[test]
fn paper_sizes_in_hundredths_of_a_point() {
    assert_eq!(paper_size_centipoints("EPKG.NMgn"), Some((28800, 43200)));
    assert_eq!(paper_size_centipoints("A4"), Some((59528, 84189)));
    assert_eq!(paper_size_centipoints("EPHiVision102x180.NMgn"), Some((28910, 51020)));
    assert_eq!(paper_size_centipoints("Statement"), Some((39600, 61200)));
    assert_eq!(paper_size_centipoints("a4"), None);
    // Only the part before the first dot is looked up.
    assert_eq!(paper_size_centipoints("3.5x5"), None);
}

#[test]
fn page_turns_for_landscape() {
    let p = with_settings(&[("PageSize", "EPPhotoPaper2L.NMgn"), ("orientation-requested", "4")]);
    assert_eq!(cups_page_centipoints(&p), (50400, 36000));
    let p = with_settings(&[("PageSize", "Unknown"), ("orientation-requested", "3")]);
    assert_eq!(cups_page_centipoints(&p), (28800, 43200));
    assert_eq!(cups_page_centipoints(&with_settings(&[])), (61200, 79200));
    let p = with_settings(&[("orientation-requested", "5")]);
    assert_eq!(cups_page_centipoints(&p), (79200, 61200));
}

#[test]
fn lpoptions_with_vendor_quality() {
    let p = with_settings(&[
        ("PageSize", "EPKG.NMgn"),
        ("print-scaling", "none"),
        ("Resolution", "360dpi"),
        ("EPIJ_Qual", "307"),
    ]);
    assert_eq!(
        lpoptions_args("EPSON_ET_8500", &p.settings),
        vec![
            "-p", "EPSON_ET_8500", "-o", "PageSize=EPKG.NMgn", "-o", "EPIJ_Qual=307", "-o",
            "Resolution=720x720dpi"
        ]
    );
}

#[test]
fn lpoptions_without_vendor_quality() {
    let p = with_settings(&[("Resolution", "360dpi"), ("MediaType", "53")]);
    assert_eq!(
        lpoptions_args("P", &p.settings),
        vec!["-p", "P", "-o", "Resolution=360dpi", "-o", "MediaType=53"]
    );
    assert_eq!(lpoptions_args("P", &Vec::new()), vec!["-p", "P"]);
}

#[test]
fn lp_command_line() {
    assert_eq!(lp_args("EPSON", 12, "/tmp/x.pdf"), vec!["-d", "EPSON", "-n", "12", "/tmp/x.pdf"]);
    assert_eq!(lp_outcome(true, "ignored"), Ok(()));
    assert_eq!(lp_outcome(false, "no such printer"), Err("lp failed: no such printer".to_string()));
}

#[test]
fn preset_needs_a_printer() {
    let mut p = with_settings(&[]);
    assert_eq!(preset_printer(&p), Err("No printer assigned to preset".to_string()));
    p.printer_id = Some("EPSON".to_string());
    assert_eq!(preset_printer(&p), Ok("EPSON".to_string()));
}

#[test]
fn ppd_file_names() {
    assert_eq!(ppd_path("EPSON ET-8500 Series"), "/private/etc/cups/ppd/EPSON_ET_8500_Series.ppd");
    assert_eq!(ppd_path("Épson_2"), "/private/etc/cups/ppd/Épson_2.ppd");
}

#[test]
fn scaling_factor_for_page_size() {
    assert_eq!(cups_scaling_factor_text(PPD, "EPKG.NMgn"), Some("1.06".to_string()));
    assert_eq!(cups_scaling_factor_text(PPD, "EP5x7.NMgn"), Some("1.045".to_string()));
    // The first line for the size decides, with or without a factor.
    assert_eq!(cups_scaling_factor_text(PPD, "Letter"), None);
    assert_eq!(cups_scaling_factor_text(PPD, "A6.NMgn"), None);
    assert_eq!(cups_scaling_factor_text(PPD, "Missing"), None);
    // A line without a label ends its key at the colon.
    assert_eq!(cups_scaling_factor_text(PPD, "EP8x10in.NMgn"), Some("1.03".to_string()));
    assert_eq!(cups_scaling_factor_text("", "EPKG.NMgn"), None);
}

#[test]
fn scaling_factor_for_keyword() {
    assert_eq!(cups_scaling_factor_text_by_keyword(PPD, " KG "), Some("1.06".to_string()));
    assert_eq!(cups_scaling_factor_text_by_keyword(PPD, "5R"), Some("1.045".to_string()));
    // A line whose factor is not a number is passed over.
    assert_eq!(cups_scaling_factor_text_by_keyword(PPD, "a6"), Some("1.2".to_string()));
    assert_eq!(cups_scaling_factor_text_by_keyword(PPD, "letter"), None);
}

#[test]
fn law_settings_are_a_map() {
    let a = with_settings(&[("PageSize", "A4"), ("MediaType", "53")]);
    let b = with_settings(&[("MediaType", "53"), ("PageSize", "A4")]);
    assert_eq!(page_size_key(&a), page_size_key(&b));
    assert_eq!(cups_page_centipoints(&a), cups_page_centipoints(&b));
}
