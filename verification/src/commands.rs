//! The application's commands that decide something themselves: the
//! platform name, and the Windows printer dialog's script and answer.

use vstd::prelude::*;
use crate::text::{
    chars_of, concat, string_of, strip_prefix, strip_prefix_lit, trim, trim_chars,
    is_lit,
};
use crate::windows_print::{powershell_quote, ps_quoted};

verus! {

/// The platform name the front end is told, for the operating system
/// name that `std::env::consts::OS` gives.
pub open spec fn platform_name(os: Seq<char>) -> Seq<char> {
    if os == "windows"@ {
        "windows"@
    } else if os == "macos"@ {
        "macos"@
    } else {
        "linux"@
    }
}

/// The platform name for an operating system (see [`platform_name`]).
pub fn get_platform(os: &str) -> (res: String)
    ensures
        res@ == platform_name(os@),
{
    let c = chars_of(os);
    if is_lit(&c, "windows") {
        String::from_str("windows")
    } else if is_lit(&c, "macos") {
        String::from_str("macos")
    } else {
        String::from_str("linux")
    }
}

/// The error of the printer dialog where there is none.
pub open spec fn dialog_unavailable() -> Seq<char> {
    "Printer dialog is only available on Windows"@
}

/// The driver's printer dialog outside Windows: always the error
/// [`dialog_unavailable`].
pub fn open_printer_dialog(_printer_id: String) -> (res: Result<String, String>)
    ensures
        res matches Err(e) && e@ == dialog_unavailable(),
{
    Err(String::from_str("Printer dialog is only available on Windows"))
}

/// Script text before the printer name in the dialog script.
pub const DIALOG_SCRIPT_HEAD: &'static str = "$ErrorActionPreference = 'Stop'\ntry {\n    Add-Type -TypeDefinition @\"\nusing System;\nusing System.Runtime.InteropServices;\n\npublic static class PrinterDialog {\n    [DllImport(\"winspool.drv\", CharSet = CharSet.Unicode, SetLastError = true)]\n    public static extern bool OpenPrinter(string pPrinterName, out IntPtr phPrinter, IntPtr pDefault);\n\n    [DllImport(\"winspool.drv\", CharSet = CharSet.Unicode, SetLastError = true)]\n    public static extern int DocumentProperties(\n        IntPtr hWnd, IntPtr hPrinter, string pDeviceName,\n        IntPtr pDevModeOutput, IntPtr pDevModeInput, int fMode);\n\n    [DllImport(\"winspool.drv\", SetLastError = true)]\n    public static extern bool ClosePrinter(IntPtr hPrinter);\n\n    // fMode flags\n    public const int DM_IN_BUFFER  = 8;\n    public const int DM_IN_PROMPT  = 4;\n    public const int DM_OUT_BUFFER = 2;\n    // IDOK\n    public const int IDOK = 1;\n}\n\"@\n\n    $printerName = '";

/// Script text after the printer name in the dialog script.
pub const DIALOG_SCRIPT_TAIL: &'static str = "'\n\n    # Open printer handle\n    $hPrinter = [IntPtr]::Zero\n    if (-not [PrinterDialog]::OpenPrinter($printerName, [ref]$hPrinter, [IntPtr]::Zero)) {\n        throw \"OpenPrinter failed for '$printerName' (error $([System.Runtime.InteropServices.Marshal]::GetLastWin32Error()))\"\n    }\n\n    try {\n        # Get required DEVMODE size\n        $cbNeeded = [PrinterDialog]::DocumentProperties(\n            [IntPtr]::Zero, $hPrinter, $printerName,\n            [IntPtr]::Zero, [IntPtr]::Zero, 0)\n        if ($cbNeeded -le 0) {\n            throw \"DocumentProperties size query failed\"\n        }\n\n        # Allocate DEVMODE buffer\n        $pDevMode = [System.Runtime.InteropServices.Marshal]::AllocHGlobal($cbNeeded)\n\n        try {\n            # Get default DEVMODE first\n            $ret = [PrinterDialog]::DocumentProperties(\n                [IntPtr]::Zero, $hPrinter, $printerName,\n                $pDevMode, [IntPtr]::Zero,\n                [PrinterDialog]::DM_OUT_BUFFER)\n\n            # Show the dialog with current defaults as input\n            $ret = [PrinterDialog]::DocumentProperties(\n                [IntPtr]::Zero, $hPrinter, $printerName,\n                $pDevMode, $pDevMode,\n                [PrinterDialog]::DM_IN_BUFFER -bor [PrinterDialog]::DM_IN_PROMPT -bor [PrinterDialog]::DM_OUT_BUFFER)\n\n            if ($ret -ne [PrinterDialog]::IDOK) {\n                Write-Output \"CANCELLED\"\n                exit 0\n            }\n\n            # Copy DEVMODE bytes\n            $devModeBytes = New-Object byte[] $cbNeeded\n            [System.Runtime.InteropServices.Marshal]::Copy($pDevMode, $devModeBytes, 0, $cbNeeded)\n\n            # Output as base64\n            $b64 = [System.Convert]::ToBase64String($devModeBytes)\n            Write-Output \"DEVMODE:$b64\"\n        } finally {\n            [System.Runtime.InteropServices.Marshal]::FreeHGlobal($pDevMode)\n        }\n    } finally {\n        [void][PrinterDialog]::ClosePrinter($hPrinter)\n    }\n} catch {\n    Write-Error \"DIALOG_ERROR: $($_.Exception.Message)\"\n    exit 1\n}\n";

/// The script that shows the driver's dialog for a printer and writes the
/// resulting DEVMODE in base64.
pub open spec fn dialog_script(printer_id: Seq<char>) -> Seq<char> {
    DIALOG_SCRIPT_HEAD@ + ps_quoted(printer_id) + DIALOG_SCRIPT_TAIL@
}

/// The dialog script for a printer (see [`dialog_script`]).
pub fn printer_dialog_script(printer_id: &str) -> (res: String)
    ensures
        res@ == dialog_script(printer_id@),
{
    let q = powershell_quote(printer_id);
    let r = chars_of(DIALOG_SCRIPT_HEAD);
    let r = concat(&r, &chars_of(q.as_str()));
    let r = concat(&r, &chars_of(DIALOG_SCRIPT_TAIL));
    string_of(&r)
}

/// What the dialog script's trimmed output means: the DEVMODE after
/// "DEVMODE:", a cancellation, or a failure carrying the error output (the
/// output when there is none).
pub open spec fn dialog_outcome(stdout: Seq<char>, stderr: Seq<char>) -> Result<Seq<char>, Seq<char>> {
    let out = trim(stdout);
    let err = trim(stderr);
    if out == "CANCELLED"@ {
        Err("User cancelled the dialog"@)
    } else {
        match strip_prefix(out, "DEVMODE:"@) {
            Some(b) => Ok(b),
            None => Err(
                "Printer dialog failed: "@ + if err.len() > 0 {
                    err
                } else {
                    out
                },
            ),
        }
    }
}

/// What the dialog script's output means (see [`dialog_outcome`]).
pub fn printer_dialog_outcome(stdout: &str, stderr: &str) -> (res: Result<String, String>)
    ensures
        match dialog_outcome(stdout@, stderr@) {
            Ok(b) => res matches Ok(s) && s@ == b,
            Err(e) => res matches Err(m) && m@ == e,
        },
{
    let oc = chars_of(stdout);
    let out = trim_chars(&oc);
    let ec = chars_of(stderr);
    let err = trim_chars(&ec);
    if is_lit(&out, "CANCELLED") {
        return Err(String::from_str("User cancelled the dialog"));
    }
    match strip_prefix_lit(&out, "DEVMODE:") {
        Some(b) => Ok(string_of(&b)),
        None => {
            let head = chars_of("Printer dialog failed: ");
            let detail = if err.len() > 0 {
                err
            } else {
                out
            };
            let m = concat(&head, &detail);
            Err(string_of(&m))
        },
    }
}

} // verus!
