//! The record of what is known about the host: each fact is looked up once,
//! and what was found the first time is what every later lookup returns.

use crate::host::{unknown, unknown_text, Fact, OsFamily};
use crate::memory::is_gb_text;
use crate::probe::{answer, law_memory_text_shape, plan, planned, Probe, ProbeOutcome};
use vstd::prelude::*;

verus! {

/// What a lookup needs next.
#[derive(Clone, Debug, PartialEq, Eq)]
pub enum Lookup {
    /// Nothing: this is the fact's display text.
    Known(String),
    /// The outcome of this probe.
    Ask(Probe),
}

/// What is known about a host of one family: the display text of each fact
/// that has been looked up.
#[derive(Debug)]
pub struct HostFacts {
    os: OsFamily,
    computer_name: Option<String>,
    total_memory: Option<String>,
    graphics_adapter: Option<String>,
}

/// Whether the total memory, where `known` holds it, is an amount in
/// gigabytes with two decimals or the placeholder.
pub open spec fn memory_shaped(known: Map<Fact, Seq<char>>) -> bool {
    known.contains_key(Fact::TotalMemory) ==> is_gb_text(known[Fact::TotalMemory])
        || known[Fact::TotalMemory] == unknown()
}

/// What is known once `fact` has been asked for: `known` itself where it
/// holds the fact or a probe has to be run first; on a host of a family
/// without probes, the placeholder is added for the fact.
pub open spec fn requested(known: Map<Fact, Seq<char>>, os: OsFamily, fact: Fact) -> Map<
    Fact,
    Seq<char>,
> {
    if !known.contains_key(fact) && planned(os, fact) is None {
        known.insert(fact, unknown())
    } else {
        known
    }
}

/// What is known once the probe for `fact` has ended in `outcome`: `known`
/// itself where it holds the fact already, else `known` and the answer.
pub open spec fn settled(
    known: Map<Fact, Seq<char>>,
    os: OsFamily,
    fact: Fact,
    outcome: ProbeOutcome,
) -> Map<Fact, Seq<char>> {
    if known.contains_key(fact) {
        known
    } else {
        known.insert(fact, answer(os, fact, outcome))
    }
}

/// What is known stays as it is: neither asking for a fact nor the outcome
/// of a probe changes the display text of a fact that is known.
pub proof fn law_known_stays(
    known: Map<Fact, Seq<char>>,
    os: OsFamily,
    asked: Fact,
    outcome: ProbeOutcome,
    fact: Fact,
)
    requires
        known.contains_key(fact),
    ensures
        requested(known, os, asked).contains_key(fact),
        requested(known, os, asked)[fact] == known[fact],
        settled(known, os, asked, outcome).contains_key(fact),
        settled(known, os, asked, outcome)[fact] == known[fact],
{
}

/// A fact looked up twice reads the same both times: once the first probe
/// has ended, the fact is known, asking for it again asks for no probe, and
/// whatever becomes of a second probe changes nothing.
pub proof fn law_same_text_twice(
    known: Map<Fact, Seq<char>>,
    os: OsFamily,
    fact: Fact,
    first: ProbeOutcome,
    second: ProbeOutcome,
)
    ensures
        settled(known, os, fact, first).contains_key(fact),
        requested(settled(known, os, fact, first), os, fact) == settled(known, os, fact, first),
        settled(settled(known, os, fact, first), os, fact, second) == settled(
            known,
            os,
            fact,
            first,
        ),
{
}

/// The total memory keeps its shape: where it is an amount or the
/// placeholder before a fact is asked for or a probe ends, it is one
/// afterwards.
pub proof fn law_memory_stays_shaped(
    known: Map<Fact, Seq<char>>,
    os: OsFamily,
    fact: Fact,
    outcome: ProbeOutcome,
)
    requires
        memory_shaped(known),
    ensures
        memory_shaped(requested(known, os, fact)),
        memory_shaped(settled(known, os, fact, outcome)),
{
    law_memory_text_shape(os, outcome);
}

impl View for HostFacts {
    type V = Map<Fact, Seq<char>>;

    /// The facts that have been looked up, each with its display text.
    closed spec fn view(&self) -> Map<Fact, Seq<char>> {
        Map::new(|fact: Fact| self.slot(fact) is Some, |fact: Fact| self.slot(fact)->0@)
    }
}

impl HostFacts {
    /// The family of the host.
    pub closed spec fn os(&self) -> OsFamily {
        self.os
    }

    /// The place where the display text of `fact` is kept.
    spec fn slot(&self, fact: Fact) -> Option<String> {
        match fact {
            Fact::ComputerName => self.computer_name,
            Fact::TotalMemory => self.total_memory,
            Fact::GraphicsAdapter => self.graphics_adapter,
        }
    }

    /// The total memory, once known, is an amount or the placeholder.
    #[verifier::type_invariant]
    spec fn shaped(&self) -> bool {
        memory_shaped(self@)
    }

    /// A record for a host of the family `os`, with nothing known yet.
    pub fn new(os: OsFamily) -> (facts: HostFacts)
        ensures
            facts.os() == os,
            facts@ == Map::<Fact, Seq<char>>::empty(),
    {
        let facts = HostFacts { os, computer_name: None, total_memory: None, graphics_adapter: None };
        assert(facts@ =~= Map::<Fact, Seq<char>>::empty());
        facts
    }

    /// The family of the host.
    pub fn os_family(&self) -> (os: OsFamily)
        ensures
            os == self.os(),
    {
        self.os
    }

    /// The display text of `fact`, where it has been looked up.
    pub fn known(&self, fact: Fact) -> (r: Option<String>)
        ensures
            memory_shaped(self@),
            match r {
                Some(text) => self@.contains_key(fact) && self@[fact] == text@,
                None => !self@.contains_key(fact),
            },
    {
        proof {
            use_type_invariant(self);
        }
        let slot: &Option<String> = match fact {
            Fact::ComputerName => &self.computer_name,
            Fact::TotalMemory => &self.total_memory,
            Fact::GraphicsAdapter => &self.graphics_adapter,
        };
        match slot {
            Some(text) => Some(text.clone()),
            None => None,
        }
    }

    /// Writes down `text` as the display text of `fact`.
    fn keep(&mut self, fact: Fact, text: String)
        requires
            !old(self)@.contains_key(fact),
            fact == Fact::TotalMemory ==> is_gb_text(text@) || text@ == unknown(),
        ensures
            final(self).os() == old(self).os(),
            final(self)@ == old(self)@.insert(fact, text@),
    {
        proof {
            use_type_invariant(&*self);
        }
        let ghost before = self@;
        match fact {
            Fact::ComputerName => {
                self.computer_name = Some(text);
            },
            Fact::TotalMemory => {
                self.total_memory = Some(text);
            },
            Fact::GraphicsAdapter => {
                self.graphics_adapter = Some(text);
            },
        }
        assert(self@ =~= before.insert(fact, text@));
    }

    /// Asks for `fact`. What is known is returned; on a host of a family
    /// without probes the placeholder is written down and returned; else the
    /// probe to run is returned, and nothing changes.
    pub fn request(&mut self, fact: Fact) -> (next: Lookup)
        ensures
            final(self).os() == old(self).os(),
            final(self)@ == requested(old(self)@, old(self).os(), fact),
            memory_shaped(final(self)@),
            match next {
                Lookup::Known(text) => final(self)@.contains_key(fact) && text@ == final(self)@[fact],
                Lookup::Ask(probe) => !old(self)@.contains_key(fact) && planned(
                    old(self).os(),
                    fact,
                ) == Some(probe),
            },
    {
        proof {
            use_type_invariant(&*self);
        }
        match self.known(fact) {
            Some(text) => Lookup::Known(text),
            None => match plan(self.os, fact) {
                Some(probe) => Lookup::Ask(probe),
                None => {
                    self.keep(fact, unknown_text());
                    Lookup::Known(unknown_text())
                },
            },
        }
    }

    /// Takes what became of the probe for `fact`. Where the fact is known
    /// already, `outcome` is ignored and nothing changes; else the answer is
    /// written down. Either way the fact's display text is returned.
    pub fn record(&mut self, fact: Fact, outcome: ProbeOutcome) -> (text: String)
        ensures
            final(self).os() == old(self).os(),
            final(self)@ == settled(old(self)@, old(self).os(), fact, outcome),
            memory_shaped(final(self)@),
            final(self)@.contains_key(fact),
            text@ == final(self)@[fact],
    {
        proof {
            use_type_invariant(&*self);
        }
        match self.known(fact) {
            Some(text) => text,
            None => {
                let text: String = match plan(self.os, fact) {
                    Some(probe) => probe.interpret(outcome),
                    None => unknown_text(),
                };
                proof {
                    law_memory_text_shape(self.os, outcome);
                }
                self.keep(fact, text.clone());
                text
            },
        }
    }

    /// Looks `fact` up, running `run` on the probe where one is needed: at
    /// most once, and not at all where the fact is known already or the
    /// host's family has no probe. The fact is known afterwards, and its
    /// display text is returned.
    pub fn lookup<F: FnOnce(Probe) -> ProbeOutcome>(&mut self, fact: Fact, run: F) -> (text: String)
        requires
            forall|probe: Probe| call_requires(run, (probe,)),
        ensures
            final(self).os() == old(self).os(),
            memory_shaped(final(self)@),
            final(self)@.contains_key(fact),
            text@ == final(self)@[fact],
            old(self)@.contains_key(fact) ==> final(self)@ == old(self)@,
            !old(self)@.contains_key(fact) ==> match planned(old(self).os(), fact) {
                Some(probe) => exists|outcome: ProbeOutcome|
                    call_ensures(run, (probe,), outcome) && final(self)@ == old(self)@.insert(
                        fact,
                        probe.reading(outcome),
                    ),
                None => final(self)@ == old(self)@.insert(fact, unknown()),
            },
    {
        match self.request(fact) {
            Lookup::Known(text) => text,
            Lookup::Ask(probe) => {
                let outcome: ProbeOutcome = run(probe);
                let ghost came = outcome;
                let text: String = self.record(fact, outcome);
                assert(call_ensures(run, (probe,), came) && self@ == old(self)@.insert(
                    fact,
                    probe.reading(came),
                ));
                text
            },
        }
    }

    /// The computer's name, looked up with `run` unless it is known.
    pub fn get_computer_name<F: FnOnce(Probe) -> ProbeOutcome>(&mut self, run: F) -> (text: String)
        requires
            forall|probe: Probe| call_requires(run, (probe,)),
        ensures
            final(self).os() == old(self).os(),
            final(self)@.contains_key(Fact::ComputerName),
            text@ == final(self)@[Fact::ComputerName],
            old(self)@.contains_key(Fact::ComputerName) ==> final(self)@ == old(self)@,
            !old(self)@.contains_key(Fact::ComputerName) ==> match planned(
                old(self).os(),
                Fact::ComputerName,
            ) {
                Some(probe) => exists|outcome: ProbeOutcome|
                    call_ensures(run, (probe,), outcome) && final(self)@ == old(self)@.insert(
                        Fact::ComputerName,
                        probe.reading(outcome),
                    ),
                None => final(self)@ == old(self)@.insert(Fact::ComputerName, unknown()),
            },
    {
        self.lookup(Fact::ComputerName, run)
    }

    /// The total memory, looked up with `run` unless it is known: an amount
    /// in gigabytes with two decimals, or the placeholder.
    pub fn get_system_memory<F: FnOnce(Probe) -> ProbeOutcome>(&mut self, run: F) -> (text: String)
        requires
            forall|probe: Probe| call_requires(run, (probe,)),
        ensures
            final(self).os() == old(self).os(),
            final(self)@.contains_key(Fact::TotalMemory),
            text@ == final(self)@[Fact::TotalMemory],
            is_gb_text(text@) || text@ == unknown(),
            old(self)@.contains_key(Fact::TotalMemory) ==> final(self)@ == old(self)@,
            !old(self)@.contains_key(Fact::TotalMemory) ==> match planned(
                old(self).os(),
                Fact::TotalMemory,
            ) {
                Some(probe) => exists|outcome: ProbeOutcome|
                    call_ensures(run, (probe,), outcome) && final(self)@ == old(self)@.insert(
                        Fact::TotalMemory,
                        probe.reading(outcome),
                    ),
                None => final(self)@ == old(self)@.insert(Fact::TotalMemory, unknown()),
            },
    {
        self.lookup(Fact::TotalMemory, run)
    }

    /// The graphics adapter, looked up with `run` unless it is known.
    pub fn get_video_adapter<F: FnOnce(Probe) -> ProbeOutcome>(&mut self, run: F) -> (text: String)
        requires
            forall|probe: Probe| call_requires(run, (probe,)),
        ensures
            final(self).os() == old(self).os(),
            final(self)@.contains_key(Fact::GraphicsAdapter),
            text@ == final(self)@[Fact::GraphicsAdapter],
            old(self)@.contains_key(Fact::GraphicsAdapter) ==> final(self)@ == old(self)@,
            !old(self)@.contains_key(Fact::GraphicsAdapter) ==> match planned(
                old(self).os(),
                Fact::GraphicsAdapter,
            ) {
                Some(probe) => exists|outcome: ProbeOutcome|
                    call_ensures(run, (probe,), outcome) && final(self)@ == old(self)@.insert(
                        Fact::GraphicsAdapter,
                        probe.reading(outcome),
                    ),
                None => final(self)@ == old(self)@.insert(Fact::GraphicsAdapter, unknown()),
            },
    {
        self.lookup(Fact::GraphicsAdapter, run)
    }
}

} // verus!
