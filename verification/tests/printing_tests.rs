use print_queue::printing::{
    discover_printers, discover_printers_or_system, get_printer_capabilities, is_numeric_range,
    is_vendor_option, make_choice, parse_lpoptions, printers_from_system, PrinterOption,
};

const LPSTAT_D: &str = "system default destination: EPSON_ET_8500\n";
const LPSTAT_P: &str = "printer EPSON_ET_8500 is idle.  enabled since Mon 01 Jan\n\
printer Old_Printer disabled since Tue 02 Jan -\n\treason unknown\n";

const LPOPTIONS: &str = "PageSize/Media Size: Letter *EPKG.NMgn A4\n\
MediaType/Media Type: *0 53 92\n\
ColorModel/Color Mode: *RGB Gray\n\
EPIJ_Qual/Print Quality: 302 *303 304\n\
EPIJ_Foo/Foo: 1 2\n\
Brightness/Brightness: -2 -1 0 1 2 3 4 5 6 7 8\n\
\n\
Duplex: *None DuplexNoTumble\n\
Single/Single: only\n\
garbage line without separator\n";

fn choices(o: &PrinterOption) -> Vec<(String, String)> {
    o.choices.iter().map(|c| (c.value.clone(), c.label.clone())).collect()
}

fn pairs(v: &[(&str, &str)]) -> Vec<(String, String)> {
    v.iter().map(|(a, b)| (a.to_string(), b.to_string())).collect()
}

#[test]
fn lpstat_output_gives_queues() {
    let ps = discover_printers(Some(LPSTAT_D), Some(LPSTAT_P));
    assert_eq!(ps.len(), 2);
    assert_eq!(ps[0].id, "EPSON_ET_8500");
    assert_eq!(ps[0].name, "EPSON ET 8500");
    assert_eq!(ps[0].driver, "");
    assert!(ps[0].is_default && ps[0].is_online);
    assert_eq!(ps[1].id, "Old_Printer");
    assert_eq!(ps[1].name, "Old Printer");
    assert!(!ps[1].is_default && !ps[1].is_online);
}

#[test]
fn failed_lpstat_gives_nothing() {
    assert!(discover_printers(Some(LPSTAT_D), None).is_empty());
    let ps = discover_printers(None, Some("printer A is idle\n"));
    assert_eq!(ps.len(), 1);
    assert!(!ps[0].is_default);
}

#[test]
fn system_printer_list() {
    let sys = pairs(&[("Office", "HP Driver"), ("Photo", "Epson Driver")]);
    let ps = printers_from_system(&sys, Some("Photo"));
    assert_eq!(ps.len(), 2);
    assert_eq!(ps[0].id, "Office");
    assert_eq!(ps[0].name, "Office");
    assert_eq!(ps[0].driver, "HP Driver");
    assert!(!ps[0].is_default && ps[0].is_online);
    assert!(ps[1].is_default);
}

#[test]
fn system_list_is_the_fallback_when_cups_reports_none() {
    let sys = pairs(&[("Office", "HP Driver")]);
    let ps = discover_printers_or_system(Some(LPSTAT_D), Some("no printers\n"), &sys, None);
    assert_eq!(ps.len(), 1);
    assert_eq!(ps[0].driver, "HP Driver");
    let ps = discover_printers_or_system(Some(LPSTAT_D), Some(LPSTAT_P), &sys, None);
    assert_eq!(ps.len(), 2);
    assert_eq!(ps[0].id, "EPSON_ET_8500");
}

#[test]
fn vendor_options() {
    assert!(is_vendor_option("EPIJ_Foo"));
    assert!(is_vendor_option("EPIJFoo"));
    assert!(is_vendor_option("CNIjQuality"));
    assert!(is_vendor_option("BRResolution"));
    assert!(!is_vendor_option("EPIJ_Qual"));
    assert!(!is_vendor_option("EPIJ_CMat2"));
    assert!(!is_vendor_option("PageSize"));
}

#[test]
fn numeric_ranges() {
    let ten: Vec<_> = (-5..5).map(|i| make_choice(&i.to_string(), "x")).collect();
    assert!(is_numeric_range(&ten));
    let nine: Vec<_> = (0..9).map(|i| make_choice(&i.to_string(), "x")).collect();
    assert!(!is_numeric_range(&nine));
    let mut mixed = ten;
    mixed.push(make_choice("auto", "Auto"));
    assert!(!is_numeric_range(&mixed));
    let big: Vec<_> = (0..10).map(|_| make_choice("99999999999999999999", "x")).collect();
    assert!(!is_numeric_range(&big));
    let same: Vec<_> = (0..10).map(|_| make_choice("7", "x")).collect();
    assert!(!is_numeric_range(&same));
    let signs: Vec<_> = (1..11).map(|i| make_choice(&format!("+{}", i), "x")).collect();
    assert!(is_numeric_range(&signs));
    let from_minus_four: Vec<_> = (-4..6).map(|i| make_choice(&i.to_string(), "x")).collect();
    assert!(is_numeric_range(&from_minus_four));
    let down: Vec<_> = (0..10).rev().map(|i| make_choice(&i.to_string(), "x")).collect();
    assert!(!is_numeric_range(&down));
    let gap: Vec<_> = [0, 1, 2, 3, 4, 6, 7, 8, 9, 10].iter().map(|i| make_choice(&i.to_string(), "x")).collect();
    assert!(!is_numeric_range(&gap));
    let top: Vec<_> = (0..10).map(|k| make_choice(&(i64::MAX - 9 + k).to_string(), "x")).collect();
    assert!(is_numeric_range(&top));
}

#[test]
fn lpoptions_are_parsed_and_labelled() {
    let opts = parse_lpoptions(LPOPTIONS);
    let keys: Vec<&str> = opts.iter().map(|o| o.key.as_str()).collect();
    assert_eq!(keys, vec!["PageSize", "MediaType", "ColorModel", "EPIJ_Qual", "Duplex"]);
    assert_eq!(opts[0].label, "Media Size");
    assert_eq!(
        choices(&opts[0]),
        pairs(&[("Letter", "Letter (8.5x11)"), ("EPKG.NMgn", "KG / 4x6 (Borderless)"), ("A4", "A4")])
    );
    assert_eq!(opts[0].default_choice.as_deref(), Some("EPKG.NMgn"));
    assert_eq!(
        choices(&opts[1]),
        pairs(&[("0", "Plain Paper"), ("53", "Photo Paper Glossy"), ("92", "Premium Photo Paper Glossy")])
    );
    assert_eq!(choices(&opts[2]), pairs(&[("RGB", "Color (RGB)"), ("Gray", "Grayscale")]));
    assert_eq!(opts[3].label, "Print Quality");
    assert_eq!(choices(&opts[3]), pairs(&[("302", "Economy"), ("303", "Normal"), ("304", "Fine")]));
    assert_eq!(opts[3].default_choice.as_deref(), Some("303"));
    assert_eq!(opts[4].label, "Duplex / 2-Sided");
    assert_eq!(choices(&opts[4]), pairs(&[("None", "Off"), ("DuplexNoTumble", "Long Edge")]));
    assert_eq!(opts[4].default_choice.as_deref(), Some("None"));
}

#[test]
fn single_page_size_is_kept() {
    let opts = parse_lpoptions("PageSize/Size: *A4\nInputSlot/Source: *Auto\n");
    assert_eq!(opts.len(), 1);
    assert_eq!(opts[0].key, "PageSize");
}

#[test]
fn capabilities_add_scaling_and_orientation() {
    let caps = get_printer_capabilities(Some(LPOPTIONS));
    assert_eq!(caps.options.len(), 7);
    assert_eq!(caps.options[5].key, "print-scaling");
    assert_eq!(caps.options[5].label, "Image Scaling");
    assert_eq!(
        choices(&caps.options[5]),
        pairs(&[
            ("none", "None (original size)"),
            ("fit", "Fit to page"),
            ("fill", "Fill page (may crop)"),
            ("auto", "Auto (CUPS default)")
        ])
    );
    assert_eq!(caps.options[5].default_choice.as_deref(), Some("none"));
    assert_eq!(caps.options[6].key, "orientation-requested");
    assert_eq!(
        choices(&caps.options[6]),
        pairs(&[("3", "Portrait"), ("4", "Landscape"), ("5", "Reverse Landscape"), ("6", "Reverse Portrait")])
    );
    assert_eq!(caps.options[6].default_choice.as_deref(), Some("3"));
}

#[test]
fn capabilities_without_lpoptions() {
    let caps = get_printer_capabilities(None);
    let keys: Vec<&str> = caps.options.iter().map(|o| o.key.as_str()).collect();
    assert_eq!(keys, vec!["print-scaling", "orientation-requested"]);
}

#[test]
fn existing_orientation_and_scaling_are_not_duplicated() {
    let caps = get_printer_capabilities(Some(
        "print-scaling/Scaling: auto *fit\nOrientation-Requested/Turn: *3 4\n",
    ));
    let keys: Vec<&str> = caps.options.iter().map(|o| o.key.as_str()).collect();
    assert_eq!(keys, vec!["print-scaling", "Orientation-Requested"]);
}
