use print_queue::commands::{
    get_platform, open_printer_dialog, printer_dialog_outcome, printer_dialog_script,
};

#[test]
fn platform_names() {
    assert_eq!(get_platform("windows"), "windows");
    assert_eq!(get_platform("macos"), "macos");
    assert_eq!(get_platform("linux"), "linux");
    assert_eq!(get_platform("freebsd"), "linux");
}

#[test]
fn dialog_is_windows_only() {
    assert_eq!(
        open_printer_dialog("EPSON".to_string()),
        Err("Printer dialog is only available on Windows".to_string())
    );
}

#[test]
fn dialog_script_quotes_the_printer() {
    let s = printer_dialog_script("O'Neil");
    assert!(s.contains("\n    $printerName = 'O''Neil'\n"));
    assert!(s.starts_with("$ErrorActionPreference = 'Stop'\ntry {\n    Add-Type -TypeDefinition @\"\n"));
    assert!(s.contains("            Write-Output \"DEVMODE:$b64\"\n"));
    assert!(s.ends_with("    exit 1\n}\n"));
}

#[test]
fn dialog_outcomes() {
    assert_eq!(
        printer_dialog_outcome("CANCELLED\r\n", ""),
        Err("User cancelled the dialog".to_string())
    );
    assert_eq!(printer_dialog_outcome(" DEVMODE:QUJD\n", ""), Ok("QUJD".to_string()));
    assert_eq!(
        printer_dialog_outcome("", "DIALOG_ERROR: x\n"),
        Err("Printer dialog failed: DIALOG_ERROR: x".to_string())
    );
    assert_eq!(
        printer_dialog_outcome("weird", "  "),
        Err("Printer dialog failed: weird".to_string())
    );
}
