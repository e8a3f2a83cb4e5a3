use print_queue::windows_printing::{get_printer_capabilities, parse_windows_capabilities};

const REPORT: &str = "FEATURE:psk:PageMediaSize\r\n  OPTION:psk:NorthAmericaLetter\r\n  OPTION:psk:ISOA4\r\n\
FEATURE:psk:JobDuplexAllDocumentsContiguously\r\nFEATURE:psk:PageOrientation\r\n  OPTION:psk:Portrait\r\n  OPTION:psk:Landscape\r\n";

#[test]
fn features_and_options() {
    let opts = parse_windows_capabilities(REPORT);
    assert_eq!(opts.len(), 2);
    assert_eq!(opts[0].key, "psk:PageMediaSize");
    assert_eq!(opts[0].label, "Page Media Size");
    assert_eq!(opts[0].choices[0].value, "psk:NorthAmericaLetter");
    assert_eq!(opts[0].choices[0].label, "North America Letter");
    assert_eq!(opts[0].choices[1].label, "ISOA4");
    assert!(opts[0].default_choice.is_none());
    assert_eq!(opts[1].key, "psk:PageOrientation");
    let caps = get_printer_capabilities(Some(REPORT));
    assert_eq!(caps.options.len(), 2);
}

#[test]
fn properties_are_the_fallback() {
    let opts = parse_windows_capabilities("PROP:Color=True\nPROP:Duplex=False\nPROP:Color=Auto\nERROR:x\n");
    assert_eq!(opts.len(), 2);
    assert_eq!(opts[0].key, "Color");
    assert_eq!(opts[0].label, "Color");
    let vals: Vec<(&str, &str)> =
        opts[0].choices.iter().map(|c| (c.value.as_str(), c.label.as_str())).collect();
    assert_eq!(vals, vec![("True", "True"), ("Auto", "Auto")]);
    assert_eq!(opts[1].key, "Duplex");
    assert_eq!(opts[1].label, "Duplex / 2-Sided");
}

#[test]
fn option_outside_a_feature_is_ignored() {
    assert!(parse_windows_capabilities("  OPTION:psk:A\nERROR:denied\n").is_empty());
}

#[test]
fn orientation_is_added_when_missing() {
    let caps = get_printer_capabilities(None);
    assert_eq!(caps.options.len(), 1);
    let o = &caps.options[0];
    assert_eq!(o.key, "psk:PageOrientation");
    assert_eq!(o.label, "Orientation");
    assert_eq!(o.choices[0].value, "psk:Portrait");
    assert_eq!(o.choices[1].label, "Landscape");
    assert_eq!(o.default_choice.as_deref(), Some("psk:Portrait"));
}

#[test]
fn query_script_names_the_printer_twice() {
    let s = print_queue::windows_printing::capabilities_query_script("EPSON ET-8500");
    assert!(s.starts_with("\n$ErrorActionPreference = 'Stop'\ntry {\n"));
    assert!(s.contains("    $queue = $server.GetPrintQueue('EPSON ET-8500')\n"));
    assert!(s.contains("Get-PrinterProperty -PrinterName 'EPSON ET-8500' -ErrorAction Stop"));
    assert!(s.contains("        Write-Output \"FEATURE:$featureName\"\n"));
}
