use everyday_user::facts::{HostFacts, Lookup};
use everyday_user::host::{Fact, OsFamily};
use everyday_user::probe::{Probe, ProbeOutcome};
use std::cell::Cell;

fn printed(stdout: &str) -> ProbeOutcome {
    ProbeOutcome::Finished { status: 0, stdout: stdout.as_bytes().to_vec() }
}

fn asked(next: Lookup) -> Probe {
    match next {
        Lookup::Ask(probe) => probe,
        Lookup::Known(text) => panic!("known already: {:?}", text),
    }
}

fn known(next: Lookup) -> String {
    match next {
        Lookup::Known(text) => text,
        Lookup::Ask(probe) => panic!("asks for {:?}", probe),
    }
}

const FACTS: [Fact; 3] = [Fact::ComputerName, Fact::TotalMemory, Fact::GraphicsAdapter];

#[test]
fn a_new_record_knows_nothing() {
    let facts = HostFacts::new(OsFamily::Linux);
    assert_eq!(facts.os_family(), OsFamily::Linux);
    for fact in FACTS {
        assert_eq!(facts.known(fact), None);
    }
}

#[test]
fn a_request_asks_for_the_probe_and_changes_nothing() {
    let mut facts = HostFacts::new(OsFamily::Linux);
    assert_eq!(asked(facts.request(Fact::TotalMemory)), Probe::MemoryStatistics);
    assert_eq!(facts.known(Fact::TotalMemory), None);
    assert_eq!(asked(facts.request(Fact::TotalMemory)), Probe::MemoryStatistics);
    assert_eq!(asked(facts.request(Fact::ComputerName)), Probe::Hostname);
    assert_eq!(asked(facts.request(Fact::GraphicsAdapter)), Probe::PciListing);
}

#[test]
fn a_recorded_outcome_is_known_from_then_on() {
    let mut facts = HostFacts::new(OsFamily::Linux);
    assert_eq!(
        facts.record(Fact::TotalMemory, printed("MemTotal:       16333852 kB\n")),
        "15.58 GB"
    );
    assert_eq!(facts.known(Fact::TotalMemory), Some("15.58 GB".to_string()));
    assert_eq!(known(facts.request(Fact::TotalMemory)), "15.58 GB");
    assert_eq!(facts.known(Fact::ComputerName), None);
    assert_eq!(facts.known(Fact::GraphicsAdapter), None);
}

#[test]
fn a_later_outcome_does_not_replace_the_first() {
    let mut facts = HostFacts::new(OsFamily::MacOS);
    assert_eq!(facts.record(Fact::TotalMemory, printed("8589934592\n")), "8.00 GB");
    assert_eq!(facts.record(Fact::TotalMemory, printed("17179869184\n")), "8.00 GB");
    assert_eq!(facts.record(Fact::TotalMemory, ProbeOutcome::Failed), "8.00 GB");
    assert_eq!(facts.known(Fact::TotalMemory), Some("8.00 GB".to_string()));
}

#[test]
fn a_failure_is_remembered_too() {
    let mut facts = HostFacts::new(OsFamily::Windows);
    assert_eq!(facts.record(Fact::GraphicsAdapter, ProbeOutcome::Failed), "Unknown");
    assert_eq!(facts.record(Fact::GraphicsAdapter, printed("Intel UHD\r\n")), "Unknown");
    assert_eq!(known(facts.request(Fact::GraphicsAdapter)), "Unknown");
    assert_eq!(facts.record(Fact::ComputerName, ProbeOutcome::Failed), "");
    assert_eq!(facts.record(Fact::ComputerName, printed("desk\r\n")), "");
    assert_eq!(known(facts.request(Fact::ComputerName)), "");
}

#[test]
fn an_unknown_family_answers_without_a_probe() {
    let mut facts = HostFacts::new(OsFamily::Unknown);
    for fact in FACTS {
        assert_eq!(known(facts.request(fact)), "Unknown");
        assert_eq!(facts.known(fact), Some("Unknown".to_string()));
    }
    let mut other = HostFacts::new(OsFamily::Unknown);
    assert_eq!(other.record(Fact::ComputerName, printed("host\n")), "Unknown");
}

#[test]
fn unknown_family_computer_name_runs_nothing() {
    let runs = Cell::new(0);
    let mut facts = HostFacts::new(OsFamily::Unknown);
    let name = facts.get_computer_name(|_probe| {
        runs.set(runs.get() + 1);
        printed("should-not-run\n")
    });
    assert_eq!(name, "Unknown");
    assert_eq!(runs.get(), 0);
    let memory = facts.get_system_memory(|_probe| {
        runs.set(runs.get() + 1);
        printed("1024\n")
    });
    let adapter = facts.get_video_adapter(|_probe| {
        runs.set(runs.get() + 1);
        printed("adapter\n")
    });
    assert_eq!(memory, "Unknown");
    assert_eq!(adapter, "Unknown");
    assert_eq!(runs.get(), 0);
}

#[test]
fn each_accessor_runs_its_probe_once() {
    let ran: Cell<Vec<Probe>> = Cell::new(Vec::new());
    let note = |probe: Probe| {
        let mut so_far = ran.take();
        so_far.push(probe);
        ran.set(so_far);
    };
    let mut facts = HostFacts::new(OsFamily::Linux);
    let name = facts.get_computer_name(|probe| {
        note(probe);
        printed("tux\n")
    });
    let memory = facts.get_system_memory(|probe| {
        note(probe);
        printed("MemTotal:       16333852 kB\n")
    });
    let adapter = facts.get_video_adapter(|probe| {
        note(probe);
        printed("01:00.0 VGA compatible controller: NVIDIA Corporation Device 2504\n")
    });
    assert_eq!(name, "tux");
    assert_eq!(memory, "15.58 GB");
    assert_eq!(adapter, "NVIDIA Corporation Device 2504");
    assert_eq!(ran.take(), vec![Probe::Hostname, Probe::MemoryStatistics, Probe::PciListing]);
}

#[test]
fn an_accessor_called_twice_returns_the_same_text() {
    let runs = Cell::new(0);
    let mut facts = HostFacts::new(OsFamily::MacOS);
    let first = facts.get_system_memory(|_probe| {
        runs.set(runs.get() + 1);
        printed("8589934592\n")
    });
    let second = facts.get_system_memory(|_probe| {
        runs.set(runs.get() + 1);
        printed("17179869184\n")
    });
    assert_eq!(first, "8.00 GB");
    assert_eq!(second, first);
    assert_eq!(runs.get(), 1);

    let first = facts.get_video_adapter(|_probe| {
        runs.set(runs.get() + 1);
        ProbeOutcome::Failed
    });
    let second = facts.get_video_adapter(|_probe| {
        runs.set(runs.get() + 1);
        printed("Chipset Model: Apple M2\n")
    });
    assert_eq!(first, "Unknown");
    assert_eq!(second, first);
    assert_eq!(runs.get(), 2);

    let first = facts.get_computer_name(|_probe| {
        runs.set(runs.get() + 1);
        printed("studio\n")
    });
    let second = facts.get_computer_name(|_probe| {
        runs.set(runs.get() + 1);
        printed("renamed\n")
    });
    assert_eq!(first, "studio");
    assert_eq!(second, first);
    assert_eq!(runs.get(), 3);
}

#[test]
fn lookup_is_the_accessor_for_any_fact() {
    let mut facts = HostFacts::new(OsFamily::Windows);
    let mut asked_for = None;
    let text = facts.lookup(Fact::TotalMemory, |probe| {
        asked_for = Some(probe);
        printed("17179869184\r\n")
    });
    assert_eq!(text, "16.00 GB");
    assert_eq!(asked_for, Some(Probe::MemoryQuery));
    assert_eq!(facts.known(Fact::TotalMemory), Some("16.00 GB".to_string()));
}

#[test]
fn missing_memory_statistics_are_unknown() {
    let mut facts = HostFacts::new(OsFamily::Linux);
    assert_eq!(facts.get_system_memory(|_probe| ProbeOutcome::Failed), "Unknown");
    let mut facts = HostFacts::new(OsFamily::Linux);
    assert_eq!(
        facts.get_system_memory(|_probe| printed("MemFree: 5 kB\nSwapTotal: 7 kB\n")),
        "Unknown"
    );
}
