//! Printing an image on Windows: the PowerShell script that prints it
//! with the preset's captured driver settings or Print Ticket, and how the
//! script's output is read.

use vstd::prelude::*;
use crate::macos::exit_code_text;
use crate::models::Preset;
use crate::text::{
    chars_of, concat, contains, contains_lit, decimal, decimal_exec, pairs_view, replace_char,
    replace_char_exec, string_of, trim, trim_chars,
};

verus! {

/// The text of a PowerShell single-quoted string holding `s`: each `'`
/// doubled.
pub open spec fn ps_quoted(s: Seq<char>) -> Seq<char> {
    replace_char(s, '\'', "''"@)
}

/// The text of a PowerShell single-quoted string holding `s` (see [`ps_quoted`]).
pub fn powershell_quote(s: &str) -> (res: String)
    ensures
        res@ == ps_quoted(s@),
{
    let c = chars_of(s);
    let q = chars_of("''");
    let r = replace_char_exec(&c, '\'', &q);
    string_of(&r)
}

/// Script text before the captured DEVMODE blob.
pub const DEVMODE_BLOCK_HEAD: &'static str = "\n    # Apply DEVMODE blob directly (captured from native driver dialog)\n    $devModeB64 = '";

/// Script text between the DEVMODE blob and the number of copies.
pub const DEVMODE_BLOCK_MID: &'static str = "'\n    $devModeBytes = [System.Convert]::FromBase64String($devModeB64)\n\n    Add-Type -TypeDefinition @\"\nusing System;\nusing System.Runtime.InteropServices;\nusing System.Drawing.Printing;\n\npublic static class DevModeApplier {\n    [DllImport(\"kernel32.dll\")]\n    static extern IntPtr GlobalAlloc(uint flags, UIntPtr size);\n    [DllImport(\"kernel32.dll\")]\n    static extern IntPtr GlobalLock(IntPtr hMem);\n    [DllImport(\"kernel32.dll\")]\n    static extern bool GlobalUnlock(IntPtr hMem);\n\n    public static void Apply(PrinterSettings ps, PageSettings page, byte[] dm) {\n        IntPtr hGlobal = GlobalAlloc(0x0042, (UIntPtr)dm.Length);\n        IntPtr ptr = GlobalLock(hGlobal);\n        Marshal.Copy(dm, 0, ptr, dm.Length);\n        GlobalUnlock(hGlobal);\n        ps.SetHdevmode(hGlobal);\n        page.SetHdevmode(hGlobal);\n    }\n}\n\"@ -ReferencedAssemblies System.Drawing\n\n    [DevModeApplier]::Apply($pd.PrinterSettings, $pd.DefaultPageSettings, $devModeBytes)\n    $pd.PrinterSettings.Copies = ";

/// Script text after the number of copies in the DEVMODE block.
pub const DEVMODE_BLOCK_TAIL: &'static str = "\n";

/// Script text before the Print Ticket settings.
pub const TICKET_BLOCK_HEAD: &'static str = "\n    # Apply custom print settings via Print Ticket\n    Add-Type -AssemblyName System.Printing\n    Add-Type -AssemblyName ReachFramework\n\n    $settings = @{}\n";

/// Script text between the Print Ticket settings and the number of copies.
pub const TICKET_BLOCK_MID: &'static str = "\n\n    $server = New-Object System.Printing.LocalPrintServer\n    $queue = $server.GetPrintQueue($printerName)\n    $ticket = $queue.DefaultPrintTicket\n\n    # Read current ticket XML\n    $xmlStream = $ticket.GetXmlStream()\n    $reader = New-Object System.IO.StreamReader($xmlStream)\n    $ticketXml = [xml]$reader.ReadToEnd()\n    $reader.Close()\n    $xmlStream.Close()\n\n    $nsMgr = New-Object System.Xml.XmlNamespaceManager($ticketXml.NameTable)\n    $nsMgr.AddNamespace('psf', 'http://schemas.microsoft.com/windows/2003/08/printing/printschemaframework')\n\n    # Register all namespaces from document root\n    foreach ($attr in $ticketXml.DocumentElement.Attributes) {\n        if ($attr.Prefix -eq 'xmlns' -and $attr.LocalName -ne 'xmlns') {\n            try { $nsMgr.AddNamespace($attr.LocalName, $attr.Value) } catch {}\n        }\n    }\n\n    # Apply each setting to the ticket XML\n    foreach ($key in $settings.Keys) {\n        $value = $settings[$key]\n        $feature = $ticketXml.SelectSingleNode(\"//psf:Feature[@name='$key']\", $nsMgr)\n\n        if ($feature) {\n            # Remove existing options\n            $existingOpts = $feature.SelectNodes('psf:Option', $nsMgr)\n            foreach ($o in $existingOpts) { [void]$feature.RemoveChild($o) }\n\n            $newOpt = $ticketXml.CreateElement('psf', 'Option', 'http://schemas.microsoft.com/windows/2003/08/printing/printschemaframework')\n            $newOpt.SetAttribute('name', $value)\n            [void]$feature.AppendChild($newOpt)\n        } else {\n            # Add new feature\n            $newFeature = $ticketXml.CreateElement('psf', 'Feature', 'http://schemas.microsoft.com/windows/2003/08/printing/printschemaframework')\n            $newFeature.SetAttribute('name', $key)\n            $newOpt = $ticketXml.CreateElement('psf', 'Option', 'http://schemas.microsoft.com/windows/2003/08/printing/printschemaframework')\n            $newOpt.SetAttribute('name', $value)\n            [void]$newFeature.AppendChild($newOpt)\n            [void]$ticketXml.DocumentElement.AppendChild($newFeature)\n        }\n    }\n\n    # Rebuild and validate the ticket\n    $memStream = New-Object System.IO.MemoryStream\n    $ticketXml.Save($memStream)\n    $memStream.Position = 0\n    $newTicket = New-Object System.Printing.PrintTicket($memStream)\n    $memStream.Close()\n\n    $validation = $queue.MergeAndValidatePrintTicket($queue.DefaultPrintTicket, $newTicket)\n    $validatedTicket = $validation.ValidatedPrintTicket\n    $validatedTicket.CopyCount = ";

/// Script text after the number of copies in the Print Ticket block.
pub const TICKET_BLOCK_TAIL: &'static str = "\n\n    # Convert PrintTicket -> DEVMODE bytes\n    Add-Type -AssemblyName System.Printing\n    $converter = New-Object System.Printing.Interop.PrintTicketConverter(\n        $printerName,\n        $queue.ClientPrintSchemaVersion\n    )\n    $devModeBytes = $converter.ConvertPrintTicketToDevMode(\n        $validatedTicket,\n        [System.Printing.Interop.BaseDevModeType]::PrinterDefault\n    )\n    $converter.Dispose()\n    $queue.Dispose()\n    $server.Dispose()\n\n    # Apply DEVMODE to PrintDocument\n    # We need P/Invoke to allocate an HGLOBAL from the byte array\n    Add-Type -TypeDefinition @\"\nusing System;\nusing System.Runtime.InteropServices;\nusing System.Drawing.Printing;\n\npublic static class DevModeApplier {\n    [DllImport(\"kernel32.dll\")]\n    static extern IntPtr GlobalAlloc(uint flags, UIntPtr size);\n    [DllImport(\"kernel32.dll\")]\n    static extern IntPtr GlobalLock(IntPtr hMem);\n    [DllImport(\"kernel32.dll\")]\n    static extern bool GlobalUnlock(IntPtr hMem);\n\n    public static void Apply(PrinterSettings ps, PageSettings page, byte[] dm) {\n        IntPtr hGlobal = GlobalAlloc(0x0042, (UIntPtr)dm.Length);\n        IntPtr ptr = GlobalLock(hGlobal);\n        Marshal.Copy(dm, 0, ptr, dm.Length);\n        GlobalUnlock(hGlobal);\n        ps.SetHdevmode(hGlobal);\n        page.SetHdevmode(hGlobal);\n    }\n}\n\"@ -ReferencedAssemblies System.Drawing\n\n    [DevModeApplier]::Apply($pd.PrinterSettings, $pd.DefaultPageSettings, $devModeBytes)\n";

/// Script text before the printer name.
pub const SCRIPT_HEAD: &'static str = "$ErrorActionPreference = 'Stop'\ntry {\n    Add-Type -AssemblyName System.Drawing\n\n    $printerName = '";

/// Script text between the printer name and the file path.
pub const SCRIPT_AFTER_PRINTER: &'static str = "'\n    $filePath = '";

/// Script text between the file path and the number of copies.
pub const SCRIPT_AFTER_FILE: &'static str = "'\n\n    $image = [System.Drawing.Image]::FromFile($filePath)\n\n    $pd = New-Object System.Drawing.Printing.PrintDocument\n    $pd.PrinterSettings.PrinterName = $printerName\n    $pd.PrinterSettings.Copies = ";

/// Script text between the number of copies and the settings block.
pub const SCRIPT_AFTER_COPIES: &'static str = "\n";

/// Script text after the settings block.
pub const SCRIPT_TAIL: &'static str = "\n    $pd.add_PrintPage({\n        param($sender, $e)\n        # Draw the image to fill the entire page (no scaling logic — the\n        # paper size and margins are already set by the DEVMODE / Print Ticket)\n        $dest = New-Object System.Drawing.RectangleF(0, 0, $e.PageBounds.Width, $e.PageBounds.Height)\n        $e.Graphics.DrawImage($image, $dest)\n        $e.HasMorePages = $false\n    })\n\n    $pd.Print()\n    $image.Dispose()\n    $pd.Dispose()\n\n    Write-Output \"SUCCESS\"\n} catch {\n    Write-Error \"PRINT_ERROR: $($_.Exception.GetType().FullName): $($_.Exception.Message)\"\n    Write-Error \"Stack: $($_.ScriptStackTrace)\"\n    exit 1\n}\n";

/// The block that applies a DEVMODE captured from the driver's dialog.
pub open spec fn devmode_block(b64: Seq<char>, copies: u32) -> Seq<char> {
    DEVMODE_BLOCK_HEAD@ + b64 + DEVMODE_BLOCK_MID@ + decimal(copies as nat) + DEVMODE_BLOCK_TAIL@
}

/// One line per setting, `$settings['key'] = 'value'`, in order.
pub open spec fn ticket_entries(settings: Seq<(Seq<char>, Seq<char>)>) -> Seq<char>
    decreases settings.len(),
{
    if settings.len() == 0 {
        Seq::empty()
    } else {
        ticket_entries(settings.drop_last()) + "    $settings['"@ + ps_quoted(settings.last().0)
            + "'] = '"@ + ps_quoted(settings.last().1) + "'\n"@
    }
}

/// The block that applies the settings through a Print Ticket.
pub open spec fn ticket_block(entries: Seq<char>, copies: u32) -> Seq<char> {
    TICKET_BLOCK_HEAD@ + entries + TICKET_BLOCK_MID@ + decimal(copies as nat) + TICKET_BLOCK_TAIL@
}

/// The settings part of the script: the captured DEVMODE when there is
/// one, else a Print Ticket of the settings when there are any, else nothing.
pub open spec fn settings_block(
    devmode: Option<Seq<char>>,
    settings: Seq<(Seq<char>, Seq<char>)>,
    copies: u32,
) -> Seq<char> {
    match devmode {
        Some(b) => devmode_block(b, copies),
        None => if settings.len() > 0 {
            ticket_block(ticket_entries(settings), copies)
        } else {
            Seq::empty()
        },
    }
}

/// The whole script, for an already quoted printer name and file path.
pub open spec fn print_script(
    printer_name: Seq<char>,
    file_path: Seq<char>,
    devmode: Option<Seq<char>>,
    settings: Seq<(Seq<char>, Seq<char>)>,
    copies: u32,
) -> Seq<char> {
    SCRIPT_HEAD@ + printer_name + SCRIPT_AFTER_PRINTER@ + file_path + SCRIPT_AFTER_FILE@ + decimal(
        copies as nat,
    ) + SCRIPT_AFTER_COPIES@ + settings_block(devmode, settings, copies) + SCRIPT_TAIL@
}

/// The Print Ticket lines of the settings (see [`ticket_entries`]).
pub fn print_ticket_entries(settings: &Vec<(String, String)>) -> (res: Vec<char>)
    ensures
        res@ == ticket_entries(pairs_view(settings@)),
{
    let ghost pv = pairs_view(settings@);
    let mut res: Vec<char> = Vec::new();
    let mut i: usize = 0;
    while i < settings.len()
        invariant
            i <= settings.len(),
            pv == pairs_view(settings@),
            res@ == ticket_entries(pv.take(i as int)),
        decreases settings.len() - i,
    {
        assert(pv.take(i + 1).drop_last() =~= pv.take(i as int));
        assert(pv.take(i + 1).last() == (settings@[i as int].0@, settings@[i as int].1@));
        let k = powershell_quote(settings[i].0.as_str());
        let v = powershell_quote(settings[i].1.as_str());
        let a = chars_of("    $settings['");
        let b = chars_of("'] = '");
        let c = chars_of("'\n");
        let kc = chars_of(k.as_str());
        let vc = chars_of(v.as_str());
        let r1 = concat(&res, &a);
        let r2 = concat(&r1, &kc);
        let r3 = concat(&r2, &b);
        let r4 = concat(&r3, &vc);
        res = concat(&r4, &c);
        i = i + 1;
    }
    assert(pv.take(settings.len() as int) =~= pv);
    res
}

fn settings_block_exec(preset: &Preset) -> (res: Vec<char>)
    ensures
        res@ == settings_block(preset@.devmode_base64, preset@.settings, preset.copies),
{
    match &preset.devmode_base64 {
        Some(b) => {
            let h = chars_of(DEVMODE_BLOCK_HEAD);
            let bc = chars_of(b.as_str());
            let m = chars_of(DEVMODE_BLOCK_MID);
            let n = decimal_exec(preset.copies as u64);
            let t = chars_of(DEVMODE_BLOCK_TAIL);
            let r = concat(&h, &bc);
            let r = concat(&r, &m);
            let r = concat(&r, &n);
            concat(&r, &t)
        },
        None => {
            if preset.settings.len() > 0 {
                let h = chars_of(TICKET_BLOCK_HEAD);
                let e = print_ticket_entries(&preset.settings);
                let m = chars_of(TICKET_BLOCK_MID);
                let n = decimal_exec(preset.copies as u64);
                let t = chars_of(TICKET_BLOCK_TAIL);
                let r = concat(&h, &e);
                let r = concat(&r, &m);
                let r = concat(&r, &n);
                concat(&r, &t)
            } else {
                Vec::new()
            }
        },
    }
}

/// The script that prints the file on the printer with the preset's
/// settings; the printer name and file path come already quoted (see
/// [`powershell_quote`]).
pub fn build_print_script(printer_name: &str, file_path: &str, preset: &Preset) -> (res: String)
    ensures
        res@ == print_script(
            printer_name@,
            file_path@,
            preset@.devmode_base64,
            preset@.settings,
            preset.copies,
        ),
{
    let block = settings_block_exec(preset);
    let r = chars_of(SCRIPT_HEAD);
    let r = concat(&r, &chars_of(printer_name));
    let r = concat(&r, &chars_of(SCRIPT_AFTER_PRINTER));
    let r = concat(&r, &chars_of(file_path));
    let r = concat(&r, &chars_of(SCRIPT_AFTER_FILE));
    let r = concat(&r, &decimal_exec(preset.copies as u64));
    let r = concat(&r, &chars_of(SCRIPT_AFTER_COPIES));
    let r = concat(&r, &block);
    let r = concat(&r, &chars_of(SCRIPT_TAIL));
    string_of(&r)
}

/// The result of the print script from its output: success when the
/// output says so, else the error output, the output, or the exit code.
pub open spec fn print_outcome(stdout: Seq<char>, stderr: Seq<char>, code: Option<i32>) -> Result<
    (),
    Seq<char>,
> {
    if contains(stdout, "SUCCESS"@) {
        Ok(())
    } else {
        let detail = if stderr.len() > 0 {
            trim(stderr)
        } else if stdout.len() > 0 {
            trim(stdout)
        } else {
            "Process exited with code "@ + exit_code_text(code)
        };
        Err("Print failed: "@ + detail)
    }
}

/// The result of the print script (see [`print_outcome`]).
pub fn windows_print_outcome(stdout: &str, stderr: &str, code: Option<i32>) -> (res: Result<
    (),
    String,
>)
    ensures
        match print_outcome(stdout@, stderr@, code) {
            Ok(()) => res is Ok,
            Err(e) => res matches Err(m) && m@ == e,
        },
{
    let out = chars_of(stdout);
    if contains_lit(&out, "SUCCESS") {
        return Ok(());
    }
    let err = chars_of(stderr);
    let detail: Vec<char> = if err.len() > 0 {
        trim_chars(&err)
    } else if out.len() > 0 {
        trim_chars(&out)
    } else {
        let head = chars_of("Process exited with code ");
        let c = crate::macos::exit_code_chars(code);
        concat(&head, &c)
    };
    let head = chars_of("Print failed: ");
    let m = concat(&head, &detail);
    Err(string_of(&m))
}

} // verus!
