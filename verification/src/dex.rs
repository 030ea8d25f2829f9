//! The venues the bot trades on: which ones are registered, in which order,
//! and how one is found by its name.

use vstd::prelude::*;
use crate::config::Config;
use crate::text::same_text;

verus! {

/// The venues the bot knows how to talk to.
#[derive(Clone, Copy, Debug, PartialEq, Eq, Structural)]
pub enum DexKind {
    Raydium,
    Orca,
    Serum,
}

/// A registered venue.
#[derive(Clone, Copy, Debug, PartialEq, Eq, Structural)]
pub struct DexVenue {
    /// Which venue it is.
    pub kind: DexKind,
    /// Whether the venue can take part in a swap whose two legs are submitted
    /// as one indivisible operation. Unless declared, it cannot.
    pub atomic: bool,
}

/// Why no registry could be built.
#[derive(Clone, Copy, Debug, PartialEq, Eq, Structural)]
pub enum DexError {
    /// The configuration names no venue the bot knows.
    NoVenues,
}

impl DexKind {
    /// The name a venue goes by in the configuration and in opportunities.
    pub open spec fn name_spec(self) -> Seq<char> {
        match self {
            DexKind::Raydium => "raydium"@,
            DexKind::Orca => "orca"@,
            DexKind::Serum => "serum"@,
        }
    }

    /// The venue of a given name, if the bot knows one.
    pub open spec fn of_name(name: Seq<char>) -> Option<DexKind> {
        if name == "raydium"@ {
            Some(DexKind::Raydium)
        } else if name == "orca"@ {
            Some(DexKind::Orca)
        } else if name == "serum"@ {
            Some(DexKind::Serum)
        } else {
            None
        }
    }

    /// The name a venue goes by.
    pub fn name(&self) -> (r: &'static str)
        ensures
            r@ == self.name_spec(),
    {
        match self {
            DexKind::Raydium => "raydium",
            DexKind::Orca => "orca",
            DexKind::Serum => "serum",
        }
    }

    /// The venue of a given name, if the bot knows one.
    pub fn from_name(name: &str) -> (r: Option<DexKind>)
        ensures
            r == Self::of_name(name@),
    {
        if same_text(name, "raydium") {
            Some(DexKind::Raydium)
        } else if same_text(name, "orca") {
            Some(DexKind::Orca)
        } else if same_text(name, "serum") {
            Some(DexKind::Serum)
        } else {
            None
        }
    }

    /// A venue is found again under its own name.
    pub proof fn lemma_name_round_trip(self)
        ensures
            Self::of_name(self.name_spec()) == Some(self),
    {
        reveal_strlit("raydium");
        reveal_strlit("orca");
        reveal_strlit("serum");
        assert("raydium"@.len() == 7);
        assert("orca"@.len() == 4);
        assert("serum"@.len() == 5);
        assert("raydium"@[0] == 'r');
        assert("serum"@[0] == 's');
    }
}

impl DexVenue {
    /// The name the venue goes by.
    pub fn name(&self) -> (r: &'static str)
        ensures
            r@ == self.kind.name_spec(),
    {
        self.kind.name()
    }
}

/// The venues a list of names registers: one for each name the bot knows, in
/// the order of the list; unknown names are passed over.
pub open spec fn registered(names: Seq<String>) -> Seq<DexVenue>
    decreases names.len(),
{
    if names.len() == 0 {
        Seq::empty()
    } else {
        let rest = registered(names.drop_last());
        match DexKind::of_name(names.last()@) {
            Some(kind) => rest.push(DexVenue { kind, atomic: false }),
            None => rest,
        }
    }
}

/// The first venue of a given name.
pub open spec fn lookup(venues: Seq<DexVenue>, name: Seq<char>) -> Option<DexVenue>
    decreases venues.len(),
{
    if venues.len() == 0 {
        None
    } else if venues[0].kind.name_spec() == name {
        Some(venues[0])
    } else {
        lookup(venues.drop_first(), name)
    }
}

/// The registry of venues, in the order of the configuration.
pub struct DexManager {
    dexes: Vec<DexVenue>,
}

impl DexManager {
    /// The registered venues, in order.
    pub closed spec fn venues(&self) -> Seq<DexVenue> {
        self.dexes@
    }

    /// Registers the venues that the configuration enables. Names the bot
    /// does not know are passed over; a configuration that leaves no venue
    /// is refused.
    pub fn new(config: &Config) -> (r: Result<DexManager, DexError>)
        ensures
            match r {
                Ok(m) => m.venues() == registered(config.dex.enabled_dexes@) && m.venues().len() > 0,
                Err(e) => e == DexError::NoVenues && registered(config.dex.enabled_dexes@).len() == 0,
            },
    {
        let mut dexes: Vec<DexVenue> = Vec::new();
        let names = &config.dex.enabled_dexes;
        let mut i: usize = 0;
        while i < names.len()
            invariant
                i <= names.len(),
                dexes@ == registered(names@.take(i as int)),
            decreases names.len() - i,
        {
            proof {
                assert(names@.take(i + 1).drop_last() == names@.take(i as int));
            }
            match DexKind::from_name(names[i].as_str()) {
                Some(kind) => {
                    dexes.push(DexVenue { kind, atomic: false });
                },
                None => {},
            }
            i += 1;
        }
        proof {
            assert(names@.take(i as int) == names@);
        }
        if dexes.len() == 0 {
            Err(DexError::NoVenues)
        } else {
            Ok(DexManager { dexes })
        }
    }

    /// All registered venues, in order.
    pub fn get_dexes(&self) -> (r: &Vec<DexVenue>)
        ensures
            r@ == self.venues(),
    {
        &self.dexes
    }

    /// The first registered venue of the given name.
    pub fn get_dex(&self, name: &str) -> (r: Option<&DexVenue>)
        ensures
            match r {
                Some(d) => lookup(self.venues(), name@) == Some(*d),
                None => lookup(self.venues(), name@) is None,
            },
    {
        let mut i: usize = 0;
        proof {
            assert(self.dexes@.skip(0) == self.dexes@);
        }
        while i < self.dexes.len()
            invariant
                i <= self.dexes.len(),
                lookup(self.dexes@, name@) == lookup(self.dexes@.skip(i as int), name@),
            decreases self.dexes.len() - i,
        {
            proof {
                assert(self.dexes@.skip(i as int).drop_first() == self.dexes@.skip(i + 1));
            }
            if same_text(self.dexes[i].name(), name) {
                return Some(&self.dexes[i]);
            }
            i += 1;
        }
        None
    }

    /// Declares that the venues of the given name can take part in atomic
    /// swaps, or that they cannot. Nothing else about the registry changes.
    pub fn declare_atomic(&mut self, name: &str, atomic: bool)
        ensures
            final(self).venues().len() == old(self).venues().len(),
            forall|i: int|
                0 <= i < old(self).venues().len() ==> #[trigger] final(self).venues()[i] == (
                if old(self).venues()[i].kind.name_spec() == name@ {
                    DexVenue { kind: old(self).venues()[i].kind, atomic }
                } else {
                    old(self).venues()[i]
                }),
    {
        let mut i: usize = 0;
        while i < self.dexes.len()
            invariant
                i <= self.dexes.len(),
                self.dexes@.len() == old(self).dexes@.len(),
                forall|j: int|
                    0 <= j < i ==> #[trigger] self.dexes@[j] == (if old(self).dexes@[j].kind.name_spec()
                        == name@ {
                        DexVenue { kind: old(self).dexes@[j].kind, atomic }
                    } else {
                        old(self).dexes@[j]
                    }),
                forall|j: int| i <= j < self.dexes@.len() ==> self.dexes@[j] == old(self).dexes@[j],
            decreases self.dexes.len() - i,
        {
            let venue = self.dexes[i];
            if same_text(venue.name(), name) {
                self.dexes.set(i, DexVenue { kind: venue.kind, atomic });
            }
            i += 1;
        }
    }
}

} // verus!
