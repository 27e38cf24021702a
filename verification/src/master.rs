//! The master section: volume, limiter ceiling, dim, mono and talkback.

use vstd::prelude::*;
use vstd::string::*;
use crate::bus::{is_valid_bus_id, valid_bus_id};
use crate::text::{check_range, clone_texts, concat2, range_refusal, texts};
use crate::units::Milli;

verus! {

/// Lowest master volume: -80 dB.
pub const MIN_VOLUME_DB: Milli = -80_000;

/// Highest master volume: +12 dB.
pub const MAX_VOLUME_DB: Milli = 12_000;

/// Lowest limiter ceiling: -20 dB.
pub const MIN_CEILING_DB: Milli = -20_000;

/// Highest limiter ceiling: 0 dB.
pub const MAX_CEILING_DB: Milli = 0;

/// Limiter ceiling of a new master section: -0.1 dB.
pub const DEFAULT_CEILING_DB: Milli = -100;

/// What dim takes off the volume: 20 dB.
pub const DIM_DB: Milli = 20_000;

/// The state of the master section.
#[derive(Debug, Clone)]
pub struct MasterState {
    /// Volume in thousandths of a decibel, -80..+12 dB.
    pub volume_db: Milli,
    /// Limiter ceiling in thousandths of a decibel, -20..0 dB.
    pub limiter_ceiling_db: Milli,
    /// Whether dim is on.
    pub dim: bool,
    /// Whether the output is summed to mono.
    pub mono: bool,
    /// Whether talkback is on.
    pub talkback: bool,
    /// The buses that talkback goes to.
    pub talkback_buses: Vec<String>,
}

/// What the master section holds, with its texts as character sequences.
pub struct MasterView {
    pub volume_db: Milli,
    pub limiter_ceiling_db: Milli,
    pub dim: bool,
    pub mono: bool,
    pub talkback: bool,
    pub talkback_buses: Seq<Seq<char>>,
}

impl View for MasterState {
    type V = MasterView;

    open spec fn view(&self) -> MasterView {
        MasterView {
            volume_db: self.volume_db,
            limiter_ceiling_db: self.limiter_ceiling_db,
            dim: self.dim,
            mono: self.mono,
            talkback: self.talkback,
            talkback_buses: texts(self.talkback_buses@),
        }
    }
}

/// The master section as it is made: 0 dB, ceiling -0.1 dB, everything off.
pub open spec fn default_master() -> MasterView {
    MasterView {
        volume_db: 0,
        limiter_ceiling_db: DEFAULT_CEILING_DB,
        dim: false,
        mono: false,
        talkback: false,
        talkback_buses: Seq::<Seq<char>>::empty(),
    }
}

impl Default for MasterState {
    fn default() -> (r: Self)
        ensures
            r@ == default_master(),
    {
        let r = MasterState {
            volume_db: 0,
            limiter_ceiling_db: DEFAULT_CEILING_DB,
            dim: false,
            mono: false,
            talkback: false,
            talkback_buses: Vec::new(),
        };
        assert(texts(r.talkback_buses@) =~= Seq::<Seq<char>>::empty());
        r
    }
}

/// What a master volume is refused with, if it is.
pub open spec fn volume_refusal(volume_db: int) -> Option<Seq<char>> {
    range_refusal(
        volume_db,
        MIN_VOLUME_DB as int,
        MAX_VOLUME_DB as int,
        "Master Volume außerhalb des gültigen Bereichs: "@,
        " dB (erlaubt: -80 bis +12 dB)"@,
    )
}

/// What a limiter ceiling is refused with, if it is.
pub open spec fn ceiling_refusal(ceiling_db: int) -> Option<Seq<char>> {
    range_refusal(
        ceiling_db,
        MIN_CEILING_DB as int,
        MAX_CEILING_DB as int,
        "Limiter Ceiling außerhalb des gültigen Bereichs: "@,
        " dB (erlaubt: -20 bis 0 dB)"@,
    )
}

/// The first name of the list that is no bus, if there is one.
pub open spec fn first_invalid_bus(buses: Seq<Seq<char>>) -> Option<Seq<char>>
    decreases buses.len(),
{
    if buses.len() == 0 {
        None
    } else if !valid_bus_id(buses[0]) {
        Some(buses[0])
    } else {
        first_invalid_bus(buses.skip(1))
    }
}

/// Finds the first name of the list that is no bus.
pub fn find_invalid_bus(buses: &Vec<String>) -> (r: Option<usize>)
    ensures
        match r {
            Some(i) => i < buses@.len() && first_invalid_bus(texts(buses@)) == Some(
                buses@[i as int]@,
            ),
            None => first_invalid_bus(texts(buses@)) is None,
        },
{
    let ghost all = texts(buses@);
    let mut i: usize = 0;
    assert(all.skip(0) =~= all);
    while i < buses.len()
        invariant
            i <= buses@.len(),
            all == texts(buses@),
            first_invalid_bus(all) == first_invalid_bus(all.skip(i as int)),
        decreases buses@.len() - i,
    {
        let ghost rest = all.skip(i as int);
        assert(rest.skip(1) =~= all.skip(i + 1));
        if !is_valid_bus_id(buses[i].as_str()) {
            return Some(i);
        }
        i += 1;
    }
    None
}

/// Owner of the master section.
pub struct MasterManager {
    state: MasterState,
}

impl View for MasterManager {
    type V = MasterView;

    closed spec fn view(&self) -> MasterView {
        self.state@
    }
}

impl MasterManager {
    /// Volume and ceiling lie in their ranges, and talkback goes to buses
    /// only.
    pub open spec fn wf(&self) -> bool {
        &&& MIN_VOLUME_DB <= self@.volume_db <= MAX_VOLUME_DB
        &&& MIN_CEILING_DB <= self@.limiter_ceiling_db <= MAX_CEILING_DB
        &&& first_invalid_bus(self@.talkback_buses) is None
    }

    /// A master section as it is made.
    pub fn new() -> (r: Self)
        ensures
            r@ == default_master(),
            r.wf(),
    {
        MasterManager { state: MasterState::default() }
    }

    /// A copy of the state.
    pub fn get_state(&self) -> (r: MasterState)
        ensures
            r@ == self@,
    {
        MasterState {
            volume_db: self.state.volume_db,
            limiter_ceiling_db: self.state.limiter_ceiling_db,
            dim: self.state.dim,
            mono: self.state.mono,
            talkback: self.state.talkback,
            talkback_buses: clone_texts(&self.state.talkback_buses),
        }
    }

    /// Sets the volume; one outside -80..+12 dB is refused and changes
    /// nothing.
    pub fn set_volume(&mut self, volume_db: Milli) -> (r: Result<(), String>)
        ensures
            match volume_refusal(volume_db as int) {
                Some(msg) => r is Err && r->Err_0@ == msg && final(self)@ == old(self)@,
                None => r is Ok && final(self)@ == (MasterView { volume_db, ..old(self)@ }),
            },
            old(self).wf() ==> final(self).wf(),
    {
        match check_range(
            volume_db,
            MIN_VOLUME_DB,
            MAX_VOLUME_DB,
            "Master Volume außerhalb des gültigen Bereichs: ",
            " dB (erlaubt: -80 bis +12 dB)",
        ) {
            Err(e) => Err(e),
            Ok(_) => {
                self.state.volume_db = volume_db;
                Ok(())
            },
        }
    }

    /// Sets the limiter ceiling; one outside -20..0 dB is refused and changes
    /// nothing.
    pub fn set_limiter(&mut self, ceiling_db: Milli) -> (r: Result<(), String>)
        ensures
            match ceiling_refusal(ceiling_db as int) {
                Some(msg) => r is Err && r->Err_0@ == msg && final(self)@ == old(self)@,
                None => r is Ok && final(self)@ == (MasterView {
                    limiter_ceiling_db: ceiling_db,
                    ..old(self)@
                }),
            },
            old(self).wf() ==> final(self).wf(),
    {
        match check_range(
            ceiling_db,
            MIN_CEILING_DB,
            MAX_CEILING_DB,
            "Limiter Ceiling außerhalb des gültigen Bereichs: ",
            " dB (erlaubt: -20 bis 0 dB)",
        ) {
            Err(e) => Err(e),
            Ok(_) => {
                self.state.limiter_ceiling_db = ceiling_db;
                Ok(())
            },
        }
    }

    /// Switches dim.
    pub fn set_dim(&mut self, active: bool) -> (r: Result<(), String>)
        ensures
            r is Ok,
            final(self)@ == (MasterView { dim: active, ..old(self)@ }),
            old(self).wf() ==> final(self).wf(),
    {
        self.state.dim = active;
        Ok(())
    }

    /// Switches the mono sum.
    pub fn set_mono(&mut self, active: bool) -> (r: Result<(), String>)
        ensures
            r is Ok,
            final(self)@ == (MasterView { mono: active, ..old(self)@ }),
            old(self).wf() ==> final(self).wf(),
    {
        self.state.mono = active;
        Ok(())
    }

    /// Switches talkback and sets the buses it goes to. A list that names
    /// anything but a bus is refused with the first such name and changes
    /// nothing.
    pub fn set_talkback(&mut self, active: bool, target_buses: Vec<String>) -> (r: Result<
        (),
        String,
    >)
        ensures
            match first_invalid_bus(texts(target_buses@)) {
                Some(bad) => r is Err && r->Err_0@ == "Ungültige Bus-ID für Talkback: "@ + bad
                    && final(self)@ == old(self)@,
                None => r is Ok && final(self)@ == (MasterView {
                    talkback: active,
                    talkback_buses: texts(target_buses@),
                    ..old(self)@
                }),
            },
            old(self).wf() ==> final(self).wf(),
    {
        match find_invalid_bus(&target_buses) {
            Some(i) => Err(concat2("Ungültige Bus-ID für Talkback: ", target_buses[i].as_str())),
            None => {
                self.state.talkback = active;
                self.state.talkback_buses = target_buses;
                Ok(())
            },
        }
    }

    /// The volume that is heard: 20 dB less while dim is on.
    pub fn get_effective_volume_db(&self) -> (r: Milli)
        requires
            self.wf(),
        ensures
            r == if self@.dim {
                self@.volume_db - DIM_DB
            } else {
                self@.volume_db as int
            },
    {
        if self.state.dim {
            self.state.volume_db - DIM_DB
        } else {
            self.state.volume_db
        }
    }
}

impl Default for MasterManager {
    fn default() -> (r: Self)
        ensures
            r@ == default_master(),
            r.wf(),
    {
        Self::new()
    }
}

} // verus!
