use print_queue::models::Preset;
use print_queue::windows_print::{
    build_print_script, powershell_quote, print_ticket_entries, windows_print_outcome,
};

fn preset(copies: u32) -> Preset {
    let mut p = Preset::new("P".to_string(), "4x6".to_string());
    p.copies = copies;
    p
}

#[test]
fn quoting() {
    assert_eq!(powershell_quote("O'Brien's"), "O''Brien''s");
    assert_eq!(powershell_quote("plain"), "plain");
}

#[test]
fn ticket_entries() {
    let settings = vec![
        ("psk:PageMediaSize".to_string(), "psk:ISOA4".to_string()),
        ("k'ey".to_string(), "v".to_string()),
    ];
    let e: String = print_ticket_entries(&settings).into_iter().collect();
    assert_eq!(
        e,
        "    $settings['psk:PageMediaSize'] = 'psk:ISOA4'\n    $settings['k''ey'] = 'v'\n"
    );
}

#[test]
fn basic_script() {
    let s = build_print_script("My ''Printer", "C:\\img.jpg", &preset(3));
    assert!(s.starts_with(
        "$ErrorActionPreference = 'Stop'\ntry {\n    Add-Type -AssemblyName System.Drawing\n\n    $printerName = 'My ''Printer'\n    $filePath = 'C:\\img.jpg'\n"
    ));
    assert!(s.contains("    $pd.PrinterSettings.Copies = 3\n\n    $pd.add_PrintPage({\n"));
    assert!(s.ends_with("    exit 1\n}\n"));
    assert!(!s.contains("DevModeApplier"));
}

#[test]
fn devmode_script() {
    let mut p = preset(2);
    p.devmode_base64 = Some("QUJD".to_string());
    p.settings = vec![("a".to_string(), "b".to_string())];
    let s = build_print_script("P", "F", &p);
    assert!(s.contains("    $devModeB64 = 'QUJD'\n"));
    assert!(s.contains("[DevModeApplier]::Apply($pd.PrinterSettings, $pd.DefaultPageSettings, $devModeBytes)\n    $pd.PrinterSettings.Copies = 2\n"));
    assert!(!s.contains("$settings = @{}"));
}

#[test]
fn print_ticket_script() {
    let mut p = preset(4);
    p.settings = vec![("psk:PageMediaSize".to_string(), "psk:ISOA4".to_string())];
    let s = build_print_script("P", "F", &p);
    assert!(s.contains("    $settings = @{}\n    $settings['psk:PageMediaSize'] = 'psk:ISOA4'\n\n\n    $server = New-Object System.Printing.LocalPrintServer\n"));
    assert!(s.contains("    $validatedTicket.CopyCount = 4\n"));
    assert!(s.contains("foreach ($attr in $ticketXml.DocumentElement.Attributes) {\n"));
}

#[test]
fn script_outcomes() {
    assert_eq!(windows_print_outcome("spooled\r\nSUCCESS\r\n", "warning", Some(0)), Ok(()));
    assert_eq!(
        windows_print_outcome("", "  PRINT_ERROR: boom \n", Some(1)),
        Err("Print failed: PRINT_ERROR: boom".to_string())
    );
    assert_eq!(windows_print_outcome(" out ", "", Some(1)), Err("Print failed: out".to_string()));
    assert_eq!(
        windows_print_outcome("", "", Some(3)),
        Err("Print failed: Process exited with code Some(3)".to_string())
    );
    assert_eq!(
        windows_print_outcome("", "", None),
        Err("Print failed: Process exited with code None".to_string())
    );
}
