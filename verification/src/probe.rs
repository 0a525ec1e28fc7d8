//! The probes: which command or file answers a question about the host, and
//! what is made of what came back.

use crate::adapter::{
    adapter_from_query, adapter_from_report, query_adapter_name, report_adapter_name, ReportKind,
};
use crate::host::{unknown, unknown_text, Fact, OsFamily};
use crate::memory::{
    is_gb_text, law_no_total_line, lemma_meminfo_memory_text_shape,
    lemma_query_memory_text_shape, mem_total_key, memory_from_meminfo, memory_from_query,
    meminfo_memory_text, query_memory_text,
};
use crate::text::{line, starts_with, trim, trimmed};
use vstd::prelude::*;
use vstd::utf8::{decode_utf8, encode_utf8, encode_utf8_decode_utf8, valid_utf8};

verus! {

/// The error of `String::from_utf8`. Nothing is read from it: that there is
/// one is all that counts.
#[verifier::external_type_specification]
#[verifier::external_body]
pub struct ExFromUtf8Error(std::string::FromUtf8Error);

/// `String::from_utf8` accepts the bytes that are well-formed UTF-8 and no
/// others, and the string it makes of them is the one that these bytes
/// encode.
pub assume_specification[ String::from_utf8 ](vec: Vec<u8>) -> (r: Result<
    String,
    std::string::FromUtf8Error,
>)
    ensures
        r is Ok <==> valid_utf8(vec@),
        r matches Ok(text) ==> encode_utf8(text@) == vec@,
;

/// One way of asking the host for a fact: a command to run, or a file to
/// read.
#[derive(Clone, Copy, Debug, PartialEq, Eq, Structural)]
pub enum Probe {
    /// `hostname`, which prints the computer's name.
    Hostname,
    /// `scutil --get ComputerName`, which prints the computer's name.
    ComputerNameSetting,
    /// The system-management query for the total physical memory in bytes.
    MemoryQuery,
    /// `sysctl -n hw.memsize`, which prints the memory size in bytes.
    MemorySize,
    /// The file of the kernel's memory statistics.
    MemoryStatistics,
    /// The system-management query for the name of the display controller.
    AdapterQuery,
    /// `system_profiler SPDisplaysDataType`, the report on the displays.
    DisplayReport,
    /// `lspci -v`, the verbose listing of PCI devices.
    PciListing,
}

/// What became of a probe.
#[derive(Clone, Debug, PartialEq, Eq)]
pub enum ProbeOutcome {
    /// The command could not be started, or the file could not be read.
    Failed,
    /// The command ran to its end, or the file was read: the exit status (0
    /// for a file) and the bytes that came out.
    Finished { status: i32, stdout: Vec<u8> },
}

/// Why a probe gave no fact.
#[derive(Clone, Copy, Debug, PartialEq, Eq, Structural)]
pub enum ProbeFailure {
    /// The command could not be started, or the file could not be read.
    CommandNotInvokable,
    /// The command ended with a status other than 0.
    NonZeroExit,
    /// The bytes that came out are not well-formed UTF-8.
    UndecodableOutput,
    /// The text that came out does not hold what was looked for.
    NoMatchingPattern,
}

impl ProbeOutcome {
    /// The text that the probe gave: the characters that its bytes encode,
    /// where it ended with status 0 and its bytes are well-formed UTF-8.
    pub open spec fn text(self) -> Result<Seq<char>, ProbeFailure> {
        match self {
            ProbeOutcome::Failed => Err(ProbeFailure::CommandNotInvokable),
            ProbeOutcome::Finished { status, stdout } => if status != 0 {
                Err(ProbeFailure::NonZeroExit)
            } else if !valid_utf8(stdout@) {
                Err(ProbeFailure::UndecodableOutput)
            } else {
                Ok(decode_utf8(stdout@))
            },
        }
    }

    /// The text that the probe gave, or why it gave none.
    pub fn into_text(self) -> (r: Result<String, ProbeFailure>)
        ensures
            match r {
                Ok(text) => self.text() == Ok::<Seq<char>, ProbeFailure>(text@),
                Err(failure) => self.text() == Err::<Seq<char>, ProbeFailure>(failure),
            },
    {
        match self {
            ProbeOutcome::Failed => Err(ProbeFailure::CommandNotInvokable),
            ProbeOutcome::Finished { status, stdout } => {
                if status != 0 {
                    return Err(ProbeFailure::NonZeroExit);
                }
                match String::from_utf8(stdout) {
                    Ok(text) => {
                        proof {
                            encode_utf8_decode_utf8(text@);
                        }
                        Ok(text)
                    },
                    Err(_) => Err(ProbeFailure::UndecodableOutput),
                }
            },
        }
    }
}

impl Probe {
    /// The fact that the probe is about.
    pub open spec fn fact(self) -> Fact {
        match self {
            Probe::Hostname | Probe::ComputerNameSetting => Fact::ComputerName,
            Probe::MemoryQuery | Probe::MemorySize | Probe::MemoryStatistics => Fact::TotalMemory,
            Probe::AdapterQuery | Probe::DisplayReport | Probe::PciListing => Fact::GraphicsAdapter,
        }
    }

    /// Whether the probe reads a file; the others run a command.
    pub open spec fn reads_file(self) -> bool {
        self == Probe::MemoryStatistics
    }

    /// The program that the probe runs, or the path of the file it reads.
    pub open spec fn spec_target(self) -> Seq<char> {
        match self {
            Probe::Hostname => "hostname"@,
            Probe::ComputerNameSetting => "scutil"@,
            Probe::MemoryQuery => "powershell"@,
            Probe::MemorySize => "sysctl"@,
            Probe::MemoryStatistics => "/proc/meminfo"@,
            Probe::AdapterQuery => "powershell"@,
            Probe::DisplayReport => "system_profiler"@,
            Probe::PciListing => "lspci"@,
        }
    }

    /// The arguments that the program is run with, in order.
    pub open spec fn spec_arguments(self) -> Seq<Seq<char>> {
        match self {
            Probe::Hostname => seq![],
            Probe::ComputerNameSetting => seq!["--get"@, "ComputerName"@],
            Probe::MemoryQuery => seq![
                "-Command"@,
                "Get-CimInstance Win32_ComputerSystem | Select-Object -ExpandProperty TotalPhysicalMemory"@,
            ],
            Probe::MemorySize => seq!["-n"@, "hw.memsize"@],
            Probe::MemoryStatistics => seq![],
            Probe::AdapterQuery => seq![
                "-Command"@,
                "Get-CimInstance Win32_VideoController | Select-Object -ExpandProperty Name"@,
            ],
            Probe::DisplayReport => seq!["SPDisplaysDataType"@],
            Probe::PciListing => seq!["-v"@],
        }
    }

    /// What the probe finds in the text that it gave. A computer's name is
    /// the text without the white space around it, empty or not; an amount
    /// of memory is shown in gigabytes; an adapter is shown by its name.
    pub open spec fn finding(self, text: Seq<char>) -> Option<Seq<char>> {
        match self {
            Probe::Hostname | Probe::ComputerNameSetting => Some(trim(text)),
            Probe::MemoryQuery | Probe::MemorySize => query_memory_text(text),
            Probe::MemoryStatistics => meminfo_memory_text(text),
            Probe::AdapterQuery => query_adapter_name(text),
            Probe::DisplayReport => report_adapter_name(ReportKind::DisplayReport, text),
            Probe::PciListing => report_adapter_name(ReportKind::PciListing, text),
        }
    }

    /// The fact that the probe gives, or why it gives none.
    pub open spec fn result(self, outcome: ProbeOutcome) -> Result<Seq<char>, ProbeFailure> {
        match outcome.text() {
            Ok(text) => match self.finding(text) {
                Some(found) => Ok(found),
                None => Err(ProbeFailure::NoMatchingPattern),
            },
            Err(failure) => Err(failure),
        }
    }

    /// What is shown where the probe gives no fact: nothing for a computer's
    /// name, the placeholder for the rest.
    pub open spec fn fallback(self) -> Seq<char> {
        if self.fact() == Fact::ComputerName {
            Seq::empty()
        } else {
            unknown()
        }
    }

    /// The display text that comes of the probe: the fact that it gives,
    /// else its fallback.
    pub open spec fn reading(self, outcome: ProbeOutcome) -> Seq<char> {
        match self.result(outcome) {
            Ok(found) => found,
            Err(_) => self.fallback(),
        }
    }

    /// The fact that the probe is about.
    pub fn subject(&self) -> (fact: Fact)
        ensures
            fact == self.fact(),
    {
        match self {
            Probe::Hostname | Probe::ComputerNameSetting => Fact::ComputerName,
            Probe::MemoryQuery | Probe::MemorySize | Probe::MemoryStatistics => Fact::TotalMemory,
            Probe::AdapterQuery | Probe::DisplayReport | Probe::PciListing => Fact::GraphicsAdapter,
        }
    }

    /// Whether the probe reads a file; the others run a command.
    pub fn is_file(&self) -> (b: bool)
        ensures
            b == self.reads_file(),
    {
        match self {
            Probe::MemoryStatistics => true,
            _ => false,
        }
    }

    /// The program that the probe runs, or the path of the file it reads.
    pub fn target(&self) -> (t: &'static str)
        ensures
            t@ == self.spec_target(),
    {
        match self {
            Probe::Hostname => "hostname",
            Probe::ComputerNameSetting => "scutil",
            Probe::MemoryQuery => "powershell",
            Probe::MemorySize => "sysctl",
            Probe::MemoryStatistics => "/proc/meminfo",
            Probe::AdapterQuery => "powershell",
            Probe::DisplayReport => "system_profiler",
            Probe::PciListing => "lspci",
        }
    }

    /// The arguments that the program is run with, in order.
    pub fn arguments(&self) -> (args: Vec<&'static str>)
        ensures
            args@.len() == self.spec_arguments().len(),
            forall|i: int| 0 <= i < args@.len() ==> (#[trigger] args@[i])@ == self.spec_arguments()[i],
    {
        let mut args: Vec<&'static str> = Vec::new();
        match self {
            Probe::Hostname => {},
            Probe::ComputerNameSetting => {
                args.push("--get");
                args.push("ComputerName");
            },
            Probe::MemoryQuery => {
                args.push("-Command");
                args.push(
                    "Get-CimInstance Win32_ComputerSystem | Select-Object -ExpandProperty TotalPhysicalMemory",
                );
            },
            Probe::MemorySize => {
                args.push("-n");
                args.push("hw.memsize");
            },
            Probe::MemoryStatistics => {},
            Probe::AdapterQuery => {
                args.push("-Command");
                args.push(
                    "Get-CimInstance Win32_VideoController | Select-Object -ExpandProperty Name",
                );
            },
            Probe::DisplayReport => {
                args.push("SPDisplaysDataType");
            },
            Probe::PciListing => {
                args.push("-v");
            },
        }
        args
    }

    /// The fact that the probe gives, or why it gives none.
    pub fn examine(&self, outcome: ProbeOutcome) -> (r: Result<String, ProbeFailure>)
        ensures
            match r {
                Ok(found) => self.result(outcome) == Ok::<Seq<char>, ProbeFailure>(found@),
                Err(failure) => self.result(outcome) == Err::<Seq<char>, ProbeFailure>(failure),
            },
    {
        let text: String = match outcome.into_text() {
            Ok(text) => text,
            Err(failure) => {
                return Err(failure);
            },
        };
        let found: Option<String> = match self {
            Probe::Hostname | Probe::ComputerNameSetting => Some(trimmed(text.as_str())),
            Probe::MemoryQuery | Probe::MemorySize => memory_from_query(text.as_str()),
            Probe::MemoryStatistics => memory_from_meminfo(text.as_str()),
            Probe::AdapterQuery => adapter_from_query(text.as_str()),
            Probe::DisplayReport => adapter_from_report(ReportKind::DisplayReport, text.as_str()),
            Probe::PciListing => adapter_from_report(ReportKind::PciListing, text.as_str()),
        };
        match found {
            Some(found) => Ok(found),
            None => Err(ProbeFailure::NoMatchingPattern),
        }
    }

    /// The display text that comes of the probe: the fact that it gives,
    /// else nothing for a computer's name and the placeholder for the rest.
    pub fn interpret(&self, outcome: ProbeOutcome) -> (out: String)
        ensures
            out@ == self.reading(outcome),
    {
        match self.examine(outcome) {
            Ok(found) => found,
            Err(_) => match self.subject() {
                Fact::ComputerName => String::new(),
                _ => unknown_text(),
            },
        }
    }
}

/// The probe that answers `fact` on a host of the family `os`; none on a
/// host of an unknown family.
pub open spec fn planned(os: OsFamily, fact: Fact) -> Option<Probe> {
    match os {
        OsFamily::Windows => Some(
            match fact {
                Fact::ComputerName => Probe::Hostname,
                Fact::TotalMemory => Probe::MemoryQuery,
                Fact::GraphicsAdapter => Probe::AdapterQuery,
            },
        ),
        OsFamily::MacOS => Some(
            match fact {
                Fact::ComputerName => Probe::ComputerNameSetting,
                Fact::TotalMemory => Probe::MemorySize,
                Fact::GraphicsAdapter => Probe::DisplayReport,
            },
        ),
        OsFamily::Linux => Some(
            match fact {
                Fact::ComputerName => Probe::Hostname,
                Fact::TotalMemory => Probe::MemoryStatistics,
                Fact::GraphicsAdapter => Probe::PciListing,
            },
        ),
        OsFamily::Unknown => None,
    }
}

/// The display text of `fact` on a host of the family `os`, given what
/// became of the probe for it: the placeholder where the family has no
/// probe, else what the probe makes of `outcome`.
pub open spec fn answer(os: OsFamily, fact: Fact, outcome: ProbeOutcome) -> Seq<char> {
    match planned(os, fact) {
        Some(probe) => probe.reading(outcome),
        None => unknown(),
    }
}

/// The probe that answers `fact` on a host of the family `os`.
pub fn plan(os: OsFamily, fact: Fact) -> (probe: Option<Probe>)
    ensures
        probe == planned(os, fact),
        probe matches Some(p) ==> p.fact() == fact,
{
    match os {
        OsFamily::Windows => Some(
            match fact {
                Fact::ComputerName => Probe::Hostname,
                Fact::TotalMemory => Probe::MemoryQuery,
                Fact::GraphicsAdapter => Probe::AdapterQuery,
            },
        ),
        OsFamily::MacOS => Some(
            match fact {
                Fact::ComputerName => Probe::ComputerNameSetting,
                Fact::TotalMemory => Probe::MemorySize,
                Fact::GraphicsAdapter => Probe::DisplayReport,
            },
        ),
        OsFamily::Linux => Some(
            match fact {
                Fact::ComputerName => Probe::Hostname,
                Fact::TotalMemory => Probe::MemoryStatistics,
                Fact::GraphicsAdapter => Probe::PciListing,
            },
        ),
        OsFamily::Unknown => None,
    }
}

/// Whatever becomes of the probe, on whatever family of host, the total
/// memory is displayed as an amount in gigabytes with two decimals, or as
/// the placeholder.
pub proof fn law_memory_text_shape(os: OsFamily, outcome: ProbeOutcome)
    ensures
        is_gb_text(answer(os, Fact::TotalMemory, outcome)) || answer(
            os,
            Fact::TotalMemory,
            outcome,
        ) == unknown(),
{
    if let Ok(text) = outcome.text() {
        lemma_query_memory_text_shape(text);
        lemma_meminfo_memory_text_shape(text);
    }
}

/// On a Linux host, memory statistics that cannot be read, or in which no
/// line begins with the key of the total, leave the total memory at the
/// placeholder.
pub proof fn law_no_total_is_unknown(outcome: ProbeOutcome)
    requires
        outcome.text() matches Ok(text) ==> forall|k: nat|
            (#[trigger] line(text, k)) matches Some(l) ==> !starts_with(l, mem_total_key()),
    ensures
        Probe::MemoryStatistics.result(outcome) is Err,
        answer(OsFamily::Linux, Fact::TotalMemory, outcome) == unknown(),
{
    if let Ok(text) = outcome.text() {
        law_no_total_line(text);
    }
}

/// Whatever becomes of a probe, a display text comes of it: the fact where
/// the probe gives one, and the fallback in each of the four ways in which
/// it gives none.
pub proof fn law_failures_fall_back(probe: Probe, outcome: ProbeOutcome)
    ensures
        outcome is Failed ==> probe.result(outcome) == Err::<Seq<char>, ProbeFailure>(
            ProbeFailure::CommandNotInvokable,
        ),
        probe.result(outcome) is Err ==> probe.reading(outcome) == probe.fallback(),
        probe.result(outcome) matches Ok(found) ==> probe.reading(outcome) == found,
        probe.fact() != Fact::ComputerName ==> probe.reading(outcome).len() > 0,
{
    reveal_strlit("Unknown");
    if probe.fact() != Fact::ComputerName {
        if let Ok(text) = outcome.text() {
            lemma_query_memory_text_shape(text);
            lemma_meminfo_memory_text_shape(text);
        }
    }
}

/// A host of an unknown family is asked nothing: no probe is planned for
/// any fact, and each fact is displayed as the placeholder.
pub proof fn law_unknown_family(fact: Fact, outcome: ProbeOutcome)
    ensures
        planned(OsFamily::Unknown, fact) is None,
        answer(OsFamily::Unknown, fact, outcome) == unknown(),
{
}

} // verus!
