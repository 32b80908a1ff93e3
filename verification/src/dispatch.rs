//! Print dispatcher: the command line for the platform's print mechanism
//! and the classification of its exit status.

use vstd::prelude::*;
use vstd::string::StringExecFns;

verus! {

/// Outcome of invoking the OS print command; returned to the caller and
/// never persisted.
pub struct DispatchResult {
    pub succeeded: bool,
    pub diagnostic: Option<String>,
}

/// Classify the print command's exit: success carries no diagnostic, and a
/// failure carries exactly the command's captured output.
pub fn classify_exit(exit_success: bool, captured: String) -> (r: DispatchResult)
    ensures
        r.succeeded == exit_success,
        exit_success ==> r.diagnostic is None,
        !exit_success ==> (match r.diagnostic {
            Some(d) => d@ == captured@,
            None => false,
        }),
{
    if exit_success {
        DispatchResult { succeeded: true, diagnostic: None }
    } else {
        DispatchResult { succeeded: false, diagnostic: Some(captured) }
    }
}

/// The platform print command: the bundled print tool takes the artifact
/// path and the printer name; the line-printer-remote command names the
/// printer behind its flag and then the path.
pub fn print_command_line(path: &str, printer_name: &str, use_bundled_tool: bool) -> (r: (
    String,
    Vec<String>,
))
    ensures
        use_bundled_tool ==> r.0@ == "PDFtoPrinter.exe"@ && r.1@.len() == 2 && r.1@[0]@ == path@
            && r.1@[1]@ == printer_name@,
        !use_bundled_tool ==> r.0@ == "lpr"@ && r.1@.len() == 3 && r.1@[0]@ == "-P"@ && r.1@[1]@
            == printer_name@ && r.1@[2]@ == path@,
{
    let mut args: Vec<String> = Vec::new();
    if use_bundled_tool {
        args.push(path.to_owned());
        args.push(printer_name.to_owned());
        (String::from_str("PDFtoPrinter.exe"), args)
    } else {
        args.push(String::from_str("-P"));
        args.push(printer_name.to_owned());
        args.push(path.to_owned());
        (String::from_str("lpr"), args)
    }
}

} // verus!
