//! Where a configuration file is looked for, and in which order.
//!
//! The caller probes one location at a time and reports what it found
//! there; `advance` says what to do next. `find_config` does the same for
//! a caller that has probed all locations beforehand. A path is whatever
//! the caller uses for one: it is only handed through.

use vstd::prelude::*;

verus! {

/// The directory of the application below a base directory.
pub const APP_DIR: &'static str = "wired";

/// The name of the configuration file.
pub const CONFIG_FILE: &'static str = "wired.ron";

/// The configuration file below the home directory, in its usual place.
pub const HOME_CONFIG: &'static str = ".config/wired/wired.ron";

/// The configuration file directly in the home directory.
pub const HOME_DOTFILE: &'static str = ".wired.ron";

/// A place where a configuration file may lie. The variants stand in the
/// order in which the places are tried.
#[derive(Clone, Copy, Debug, PartialEq, Eq, Structural)]
pub enum Location {
    /// `CONFIG_FILE` in the directory `APP_DIR` of the base directories for
    /// configuration, as the environment sets them.
    XdgPrefixed,
    /// `CONFIG_FILE` directly in the base directories for configuration.
    XdgDefault,
    /// `HOME_CONFIG` below the home directory.
    HomeConfig,
    /// `HOME_DOTFILE` below the home directory.
    HomeDotfile,
}

/// What the search does next.
#[derive(Debug, PartialEq, Eq)]
pub enum Step<P> {
    /// The search is over: this is the configuration file.
    Found(P),
    /// Probe this location next.
    Probe(Location),
    /// The search is over: there is no configuration file.
    NotFound,
}

/// What a probe of each location found: the path of the file that lies
/// there, or nothing. A location that cannot be probed, because the
/// environment does not name the directory it lies in, holds nothing.
#[derive(Debug, PartialEq, Eq)]
pub struct Probes<P> {
    pub xdg_prefixed: Option<P>,
    pub xdg_default: Option<P>,
    pub home_config: Option<P>,
    pub home_dotfile: Option<P>,
}

impl Location {
    /// The place of the location in the search order, from zero.
    pub open spec fn rank(self) -> nat {
        match self {
            Location::XdgPrefixed => 0,
            Location::XdgDefault => 1,
            Location::HomeConfig => 2,
            Location::HomeDotfile => 3,
        }
    }

    /// The location that is tried after this one, if there is one.
    pub open spec fn successor(self) -> Option<Location> {
        match self {
            Location::XdgPrefixed => Some(Location::XdgDefault),
            Location::XdgDefault => Some(Location::HomeConfig),
            Location::HomeConfig => Some(Location::HomeDotfile),
            Location::HomeDotfile => None,
        }
    }

    /// The location that is tried first.
    pub fn first() -> (location: Location)
        ensures
            location == Location::XdgPrefixed,
    {
        Location::XdgPrefixed
    }

    /// The location that is tried after this one, if there is one.
    pub fn next(&self) -> (r: Option<Location>)
        ensures
            r == self.successor(),
    {
        match self {
            Location::XdgPrefixed => Some(Location::XdgDefault),
            Location::XdgDefault => Some(Location::HomeConfig),
            Location::HomeConfig => Some(Location::HomeDotfile),
            Location::HomeDotfile => None,
        }
    }
}

/// The step that follows a probe of `at` with the given outcome.
pub open spec fn advanced<P>(at: Location, outcome: Option<P>) -> Step<P> {
    match outcome {
        Some(path) => Step::Found(path),
        None => match at.successor() {
            Some(next) => Step::Probe(next),
            None => Step::NotFound,
        },
    }
}

/// Decides what follows a probe of `at`: a file that was found ends the
/// search, and else the next location is tried, until none is left.
pub fn advance<P>(at: Location, outcome: Option<P>) -> (step: Step<P>)
    ensures
        step == advanced(at, outcome),
{
    match outcome {
        Some(path) => Step::Found(path),
        None => match at.next() {
            Some(next) => Step::Probe(next),
            None => Step::NotFound,
        },
    }
}

impl<P> Probes<P> {
    /// What the probe of `location` found.
    pub open spec fn at(self, location: Location) -> Option<P> {
        match location {
            Location::XdgPrefixed => self.xdg_prefixed,
            Location::XdgDefault => self.xdg_default,
            Location::HomeConfig => self.home_config,
            Location::HomeDotfile => self.home_dotfile,
        }
    }

    /// The file at the first location, in the search order, at which there
    /// is one.
    pub open spec fn first_found(self) -> Option<P> {
        if self.xdg_prefixed is Some {
            self.xdg_prefixed
        } else if self.xdg_default is Some {
            self.xdg_default
        } else if self.home_config is Some {
            self.home_config
        } else {
            self.home_dotfile
        }
    }

    /// Where the search ends if it goes on from `at` step by step.
    pub open spec fn search_from(self, at: Location) -> Option<P>
        decreases 4 - at.rank(),
    {
        match advanced(at, self.at(at)) {
            Step::Found(path) => Some(path),
            Step::Probe(next) => self.search_from(next),
            Step::NotFound => None,
        }
    }

    /// Takes what the probe of `location` found, and leaves nothing there.
    fn take(&mut self, location: Location) -> (outcome: Option<P>)
        ensures
            outcome == old(self).at(location),
            final(self).at(location) is None,
            forall|other: Location|
                other != location ==> final(self).at(other) == old(self).at(other),
    {
        match location {
            Location::XdgPrefixed => self.xdg_prefixed.take(),
            Location::XdgDefault => self.xdg_default.take(),
            Location::HomeConfig => self.home_config.take(),
            Location::HomeDotfile => self.home_dotfile.take(),
        }
    }
}

/// The search, taken step by step from the first location, ends at the
/// first location that holds a file, and finds nothing exactly if no
/// location holds one.
pub proof fn lemma_search_finds_first<P>(probes: Probes<P>)
    ensures
        probes.search_from(Location::XdgPrefixed) == probes.first_found(),
        probes.first_found() is None <==> forall|l: Location| probes.at(l) is None,
        probes.first_found() matches Some(path) ==> exists|l: Location|
            probes.at(l) == Some(path) && forall|earlier: Location|
                earlier.rank() < l.rank() ==> probes.at(earlier) is None,
{
    reveal_with_fuel(Probes::search_from, 5);
    if probes.first_found() is None {
        assert forall|l: Location| probes.at(l) is None by {}
    } else {
        let l = if probes.xdg_prefixed is Some {
            Location::XdgPrefixed
        } else if probes.xdg_default is Some {
            Location::XdgDefault
        } else if probes.home_config is Some {
            Location::HomeConfig
        } else {
            Location::HomeDotfile
        };
        assert(probes.at(l) == probes.first_found());
        assert forall|earlier: Location| earlier.rank() < l.rank() implies probes.at(
            earlier,
        ) is None by {}
    }
}

/// Finds the configuration file among the outcomes of the probes: the file
/// at the first location, in the search order, at which there is one.
pub fn find_config<P>(probes: Probes<P>) -> (found: Option<P>)
    ensures
        found == probes.first_found(),
{
    let ghost all = probes;
    let mut rest = probes;
    let mut at = Location::first();
    proof {
        lemma_search_finds_first(all);
    }
    loop
        invariant
            all == probes,
            all.search_from(at) == all.first_found(),
            forall|l: Location| l.rank() >= at.rank() ==> rest.at(l) == all.at(l),
        decreases 4 - at.rank(),
    {
        let outcome = rest.take(at);
        match advance(at, outcome) {
            Step::Found(path) => {
                return Some(path);
            },
            Step::Probe(next) => {
                at = next;
            },
            Step::NotFound => {
                return None;
            },
        }
    }
}

} // verus!
