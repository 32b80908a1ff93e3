//! Printer directory records: the OS registry of installed printers is an
//! outside collaborator; its entries arrive here reduced to plain values
//! and are turned into the client-facing records, one for one.

use vstd::prelude::*;

verus! {

/// Live state reported by the OS printer directory for one printer.
#[derive(Clone, Copy, PartialEq, Eq, Structural, Debug)]
pub enum PrinterStateKind {
    Ready,
    Offline,
    Paused,
    Printing,
    Unknown,
}

/// One directory entry, reduced to plain values at the boundary.
pub struct PrinterInfo {
    pub name: String,
    pub system_name: String,
    pub is_default: bool,
    pub state: PrinterStateKind,
}

/// One printer as reported to clients.
pub struct Printer {
    pub name: String,
    pub system_name: String,
    pub is_default: bool,
    pub state: String,
}

/// A lookup result from the OS printer directory; queried fresh per job,
/// since printer availability can change between requests.
pub struct PrinterRef {
    pub name: String,
    pub exists: bool,
}

/// The label each directory state is reported under.
pub open spec fn state_label_of(k: PrinterStateKind) -> Seq<char> {
    match k {
        PrinterStateKind::Ready => "Ready"@,
        PrinterStateKind::Offline => "Offline"@,
        PrinterStateKind::Paused => "Paused"@,
        PrinterStateKind::Printing => "Printing"@,
        PrinterStateKind::Unknown => "Unknown"@,
    }
}

/// The label of one directory state, as a string.
pub fn state_label(k: PrinterStateKind) -> (r: String)
    ensures
        r@ == state_label_of(k),
{
    match k {
        PrinterStateKind::Ready => "Ready".to_owned(),
        PrinterStateKind::Offline => "Offline".to_owned(),
        PrinterStateKind::Paused => "Paused".to_owned(),
        PrinterStateKind::Printing => "Printing".to_owned(),
        PrinterStateKind::Unknown => "Unknown".to_owned(),
    }
}

/// The client-facing record that one directory entry turns into.
pub open spec fn is_record_of(p: PrinterInfo, r: Printer) -> bool {
    r.name@ == p.name@ && r.system_name@ == p.system_name@ && r.is_default == p.is_default
        && r.state@ == state_label_of(p.state)
}

/// Turn raw directory entries into client-facing records, one for one.
pub fn printers_catalog(raw: Vec<PrinterInfo>) -> (r: Vec<Printer>)
    ensures
        r@.len() == raw@.len(),
        forall|i: int| 0 <= i < raw@.len() ==> is_record_of(raw@[i], #[trigger] r@[i]),
{
    let mut out: Vec<Printer> = Vec::new();
    let mut idx: usize = 0;
    while idx < raw.len()
        invariant
            idx <= raw@.len(),
            out@.len() == idx,
            forall|i: int| 0 <= i < idx ==> is_record_of(raw@[i], #[trigger] out@[i]),
        decreases raw@.len() - idx,
    {
        let entry = &raw[idx];
        out.push(
            Printer {
                name: entry.name.clone(),
                system_name: entry.system_name.clone(),
                is_default: entry.is_default,
                state: state_label(entry.state),
            },
        );
        idx = idx + 1;
    }
    out
}

} // verus!
