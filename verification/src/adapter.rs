//! The name of the graphics adapter, from the text in which a host reports
//! it.

use crate::text::{
    after_first, chars_of, contains, cut, find_after, find_char, first_line_with, trim,
    trim_bounds, window_contains,
};
use vstd::prelude::*;

verus! {

/// The line-by-line reports that name a graphics adapter.
#[derive(Clone, Copy, Debug, PartialEq, Eq, Structural)]
pub enum ReportKind {
    /// A listing of PCI devices. The line of a device holds its address, a
    /// colon, its class, a colon and its description; the address has a
    /// colon of its own in it.
    PciListing,
    /// A report on the displays, with one labelled value on a line.
    DisplayReport,
}

/// The class of a display controller in a PCI listing.
pub open spec fn vga_class() -> Seq<char> {
    "VGA compatible controller"@
}

/// The class of a graphics processor without display outputs in a PCI
/// listing.
pub open spec fn three_d_class() -> Seq<char> {
    "3D controller"@
}

/// The label of the adapter's model in a report on the displays, with the
/// colon that ends it.
pub open spec fn chipset_label() -> Seq<char> {
    "Chipset Model:"@
}

/// The adapter that `line` names, where it names one, without the white
/// space around the name. In a PCI listing it is what follows the second
/// colon of a line that holds one of the two graphics classes; in a report
/// on the displays, what follows the label on the line.
pub open spec fn line_adapter(kind: ReportKind, line: Seq<char>) -> Option<Seq<char>> {
    match kind {
        ReportKind::PciListing => {
            if contains(line, vga_class()) || contains(line, three_d_class()) {
                match after_first(line, ":"@) {
                    Some(rest) => match after_first(rest, ":"@) {
                        Some(name) => Some(trim(name)),
                        None => None,
                    },
                    None => None,
                }
            } else {
                None
            }
        },
        ReportKind::DisplayReport => match after_first(line, chipset_label()) {
            Some(name) => Some(trim(name)),
            None => None,
        },
    }
}

/// The adapter that `report` names: what its first line that names one
/// gives.
pub open spec fn adapter_in(kind: ReportKind, report: Seq<char>) -> Option<Seq<char>> {
    first_line_with(report, |line: Seq<char>| line_adapter(kind, line))
}

/// A name that is a name: `found`, unless nothing was found or what was
/// found is empty.
pub open spec fn named(found: Option<Seq<char>>) -> Option<Seq<char>> {
    match found {
        Some(name) => if name.len() > 0 {
            Some(name)
        } else {
            None
        },
        None => None,
    }
}

/// The name of the adapter that `report` names, where it names one and the
/// name is not empty.
pub open spec fn report_adapter_name(kind: ReportKind, report: Seq<char>) -> Option<Seq<char>> {
    named(adapter_in(kind, report))
}

/// The name of the adapter that the output of a name query gives: the
/// output without the white space around it, where anything is left of it.
pub open spec fn query_adapter_name(output: Seq<char>) -> Option<Seq<char>> {
    named(Some(trim(output)))
}

/// The patterns that the lines of a report are searched for, as characters.
struct Patterns {
    vga: Vec<char>,
    three_d: Vec<char>,
    chipset: Vec<char>,
    colon: Vec<char>,
}

impl Patterns {
    spec fn ready(&self) -> bool {
        &&& self.vga@ == vga_class()
        &&& self.three_d@ == three_d_class()
        &&& self.chipset@ == chipset_label()
        &&& self.colon@ == ":"@
    }

    fn new() -> (patterns: Patterns)
        ensures
            patterns.ready(),
    {
        Patterns {
            vga: chars_of("VGA compatible controller"),
            three_d: chars_of("3D controller"),
            chipset: chars_of("Chipset Model:"),
            colon: chars_of(":"),
        }
    }
}

/// Bounds of the adapter that the line `lo..hi` of `s` names, where it names
/// one.
fn line_adapter_bounds(
    kind: ReportKind,
    s: &[char],
    lo: usize,
    hi: usize,
    patterns: &Patterns,
) -> (r: Option<(usize, usize)>)
    requires
        lo <= hi <= s.len(),
        patterns.ready(),
    ensures
        match r {
            Some((a, b)) => a <= b <= s.len() && line_adapter(
                kind,
                s@.subrange(lo as int, hi as int),
            ) == Some(s@.subrange(a as int, b as int)),
            None => line_adapter(kind, s@.subrange(lo as int, hi as int)) is None,
        },
{
    let name_from: Option<usize> = match kind {
        ReportKind::PciListing => {
            if window_contains(s, lo, hi, patterns.vga.as_slice()) || window_contains(
                s,
                lo,
                hi,
                patterns.three_d.as_slice(),
            ) {
                match find_after(s, lo, hi, patterns.colon.as_slice()) {
                    Some(rest) => find_after(s, rest, hi, patterns.colon.as_slice()),
                    None => None,
                }
            } else {
                None
            }
        },
        ReportKind::DisplayReport => find_after(s, lo, hi, patterns.chipset.as_slice()),
    };
    match name_from {
        Some(from) => Some(trim_bounds(s, from, hi)),
        None => None,
    }
}

/// Bounds of the adapter that the report `s` names, where it names one.
fn adapter_bounds(kind: ReportKind, s: &[char]) -> (r: Option<(usize, usize)>)
    ensures
        match r {
            Some((a, b)) => a <= b <= s.len() && adapter_in(kind, s@) == Some(
                s@.subrange(a as int, b as int),
            ),
            None => adapter_in(kind, s@) is None,
        },
{
    let patterns: Patterns = Patterns::new();
    let n: usize = s.len();
    let mut from: usize = 0;
    assert(s@.subrange(0, n as int) =~= s@);
    loop
        invariant
            from <= n,
            n == s.len(),
            patterns.ready(),
            adapter_in(kind, s@) == adapter_in(kind, s@.subrange(from as int, n as int)),
        decreases n - from,
    {
        let end: usize = find_char(s, from, n, '\n');
        let here: Option<(usize, usize)> = line_adapter_bounds(kind, s, from, end, &patterns);
        proof {
            let rest = s@.subrange(from as int, n as int);
            assert(rest.take(end - from) =~= s@.subrange(from as int, end as int));
            if end < n {
                assert(rest.skip(end - from + 1) =~= s@.subrange(end + 1, n as int));
            }
        }
        if here.is_some() {
            return here;
        }
        if end >= n {
            return None;
        }
        from = end + 1;
    }
}

/// The name of the adapter that `report` names, where it names one and the
/// name is not empty.
pub fn adapter_from_report(kind: ReportKind, report: &str) -> (r: Option<String>)
    ensures
        match r {
            Some(name) => report_adapter_name(kind, report@) == Some(name@),
            None => report_adapter_name(kind, report@) is None,
        },
{
    let text: Vec<char> = chars_of(report);
    match adapter_bounds(kind, text.as_slice()) {
        Some((a, b)) => {
            if a < b {
                Some(cut(report, a, b))
            } else {
                None
            }
        },
        None => None,
    }
}

/// The name of the adapter that the output of a name query gives, where
/// anything is left of the output without the white space around it.
pub fn adapter_from_query(output: &str) -> (r: Option<String>)
    ensures
        match r {
            Some(name) => query_adapter_name(output@) == Some(name@),
            None => query_adapter_name(output@) is None,
        },
{
    let text: Vec<char> = chars_of(output);
    assert(text@.subrange(0, text@.len() as int) =~= text@);
    let (a, b) = trim_bounds(text.as_slice(), 0, text.len());
    if a < b {
        Some(cut(output, a, b))
    } else {
        None
    }
}

} // verus!
