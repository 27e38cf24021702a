//! Output buses: the fixed set of mix destinations.

use vstd::prelude::*;
use vstd::string::*;
use crate::text::{concat3, str_eq};
use crate::units::{clamp, clamped, Milli};

verus! {

/// The identifiers of the four buses, as character sequences.
pub open spec fn valid_bus_id(id: Seq<char>) -> bool {
    id == "A1"@ || id == "A2"@ || id == "B1"@ || id == "B2"@
}

/// Whether `bus_id` names one of the four buses.
pub fn is_valid_bus_id(bus_id: &str) -> (r: bool)
    ensures
        r == valid_bus_id(bus_id@),
{
    str_eq(bus_id, "A1") || str_eq(bus_id, "A2") || str_eq(bus_id, "B1") || str_eq(bus_id, "B2")
}

/// Lowest volume: -50 dB.
pub const MIN_VOLUME_DB: Milli = -50_000;

/// Highest volume: +10 dB.
pub const MAX_VOLUME_DB: Milli = 10_000;

/// The kind of an output bus.
#[derive(Debug, Clone, Copy, PartialEq, Eq, Structural)]
pub enum BusType {
    /// A physical output: speakers, headset.
    Physical,
    /// A virtual output: stream, voice chat.
    Virtual,
}

/// One output bus.
#[derive(Debug, Clone)]
pub struct OutputBus {
    /// The identifier: `A1`, `A2`, `B1` or `B2`.
    pub id: String,
    /// The name that is shown.
    pub name: String,
    /// Physical or virtual.
    pub bus_type: BusType,
    /// The device that the bus feeds, if one is assigned.
    pub device_id: Option<u32>,
    /// Volume in thousandths of a decibel, -50..+10 dB.
    pub volume_db: Milli,
    /// Whether the bus is muted.
    pub muted: bool,
    /// Whether the bus is being recorded.
    pub recording: bool,
}

/// What an output bus holds, with its texts as character sequences.
pub struct BusView {
    pub id: Seq<char>,
    pub name: Seq<char>,
    pub bus_type: BusType,
    pub device_id: Option<u32>,
    pub volume_db: Milli,
    pub muted: bool,
    pub recording: bool,
}

impl View for OutputBus {
    type V = BusView;

    open spec fn view(&self) -> BusView {
        BusView {
            id: self.id@,
            name: self.name@,
            bus_type: self.bus_type,
            device_id: self.device_id,
            volume_db: self.volume_db,
            muted: self.muted,
            recording: self.recording,
        }
    }
}

/// A bus as it is made: at 0 dB, not muted, not recorded, without a device.
pub open spec fn fresh_bus(id: Seq<char>, name: Seq<char>, bus_type: BusType) -> BusView {
    BusView { id, name, bus_type, device_id: None, volume_db: 0, muted: false, recording: false }
}

impl OutputBus {
    /// A physical bus.
    pub fn new_physical(id: &str, name: &str) -> (r: Self)
        ensures
            r@ == fresh_bus(id@, name@, BusType::Physical),
    {
        OutputBus {
            id: id.to_owned(),
            name: name.to_owned(),
            bus_type: BusType::Physical,
            device_id: None,
            volume_db: 0,
            muted: false,
            recording: false,
        }
    }

    /// A virtual bus.
    pub fn new_virtual(id: &str, name: &str) -> (r: Self)
        ensures
            r@ == fresh_bus(id@, name@, BusType::Virtual),
    {
        OutputBus {
            id: id.to_owned(),
            name: name.to_owned(),
            bus_type: BusType::Virtual,
            device_id: None,
            volume_db: 0,
            muted: false,
            recording: false,
        }
    }

    /// A copy of the bus.
    pub fn duplicate(&self) -> (r: Self)
        ensures
            r@ == self@,
    {
        OutputBus {
            id: self.id.clone(),
            name: self.name.clone(),
            bus_type: self.bus_type,
            device_id: self.device_id,
            volume_db: self.volume_db,
            muted: self.muted,
            recording: self.recording,
        }
    }
}

/// The place of a bus among the four, if the identifier names one.
pub open spec fn bus_index(id: Seq<char>) -> Option<int> {
    if id == "A1"@ {
        Some(0)
    } else if id == "A2"@ {
        Some(1)
    } else if id == "B1"@ {
        Some(2)
    } else if id == "B2"@ {
        Some(3)
    } else {
        None
    }
}

/// The identifiers of the four buses, in order.
pub open spec fn bus_ids() -> Seq<Seq<char>> {
    seq!["A1"@, "A2"@, "B1"@, "B2"@]
}

/// The buses that a new manager holds.
pub open spec fn default_buses() -> Seq<BusView> {
    seq![
        fresh_bus("A1"@, "SPEAKERS"@, BusType::Physical),
        fresh_bus("A2"@, "HEADSET"@, BusType::Physical),
        fresh_bus("B1"@, "STREAM"@, BusType::Virtual),
        fresh_bus("B2"@, "VOIP"@, BusType::Virtual),
    ]
}

/// The views of a list of buses, in order.
pub open spec fn bus_views(buses: Seq<OutputBus>) -> Seq<BusView> {
    buses.map_values(|b: OutputBus| b@)
}

/// The message for a bus that is not there.
pub open spec fn bus_not_found(id: Seq<char>) -> Seq<char> {
    "Bus '"@ + id + "' nicht gefunden"@
}

/// Finds the place of a bus among the four.
pub fn find_bus(bus_id: &str) -> (r: Option<usize>)
    ensures
        match r {
            Some(i) => bus_index(bus_id@) == Some(i as int),
            None => bus_index(bus_id@) is None,
        },
{
    if str_eq(bus_id, "A1") {
        Some(0)
    } else if str_eq(bus_id, "A2") {
        Some(1)
    } else if str_eq(bus_id, "B1") {
        Some(2)
    } else if str_eq(bus_id, "B2") {
        Some(3)
    } else {
        None
    }
}

/// The four output buses. Its view is the list of buses by identifier.
pub struct BusManager {
    buses: Vec<OutputBus>,
}

impl View for BusManager {
    type V = Seq<BusView>;

    closed spec fn view(&self) -> Seq<BusView> {
        bus_views(self.buses@)
    }
}

impl BusManager {
    /// The manager holds the four buses, in order, each at a volume in its
    /// range.
    pub open spec fn wf(&self) -> bool {
        &&& self@.len() == 4
        &&& forall|i: int|
            0 <= i < 4 ==> (#[trigger] self@[i]).id == bus_ids()[i] && MIN_VOLUME_DB
                <= self@[i].volume_db <= MAX_VOLUME_DB
    }

    /// A manager with the four buses as they are made: `A1` SPEAKERS and
    /// `A2` HEADSET, physical; `B1` STREAM and `B2` VOIP, virtual.
    pub fn new() -> (r: Self)
        ensures
            r.wf(),
            r@ == default_buses(),
    {
        let mut buses: Vec<OutputBus> = Vec::new();
        buses.push(OutputBus::new_physical("A1", "SPEAKERS"));
        buses.push(OutputBus::new_physical("A2", "HEADSET"));
        buses.push(OutputBus::new_virtual("B1", "STREAM"));
        buses.push(OutputBus::new_virtual("B2", "VOIP"));
        let r = BusManager { buses };
        r
    }

    /// Every bus, by identifier: `A1`, `A2`, `B1`, `B2`.
    pub fn get_buses(&self) -> (r: Vec<OutputBus>)
        ensures
            bus_views(r@) == self@,
    {
        let mut out: Vec<OutputBus> = Vec::new();
        let mut i: usize = 0;
        while i < self.buses.len()
            invariant
                i <= self.buses@.len(),
                out@.len() == i,
                forall|j: int| 0 <= j < i ==> (#[trigger] out@[j])@ == self.buses@[j]@,
            decreases self.buses@.len() - i,
        {
            out.push(self.buses[i].duplicate());
            i += 1;
        }
        out
    }

    /// The bus `bus_id`, if it is one of the four.
    pub fn get_bus(&self, bus_id: &str) -> (r: Option<&OutputBus>)
        requires
            self.wf(),
        ensures
            match bus_index(bus_id@) {
                Some(i) => r is Some && r->0@ == self@[i] && r->0@.id == bus_id@,
                None => r is None,
            },
    {
        match find_bus(bus_id) {
            Some(i) => {
                Some(&self.buses[i])
            },
            None => None,
        }
    }

    /// Sets the volume of a bus, limited to -50..+10 dB.
    pub fn set_volume(&mut self, bus_id: &str, volume_db: Milli) -> (r: Result<(), String>)
        requires
            old(self).wf(),
        ensures
            final(self).wf(),
            match bus_index(bus_id@) {
                Some(i) => r is Ok && final(self)@ == old(self)@.update(
                    i,
                    BusView {
                        volume_db: clamped(
                            volume_db as int,
                            MIN_VOLUME_DB as int,
                            MAX_VOLUME_DB as int,
                        ) as i32,
                        ..old(self)@[i]
                    },
                ),
                None => r is Err && r->Err_0@ == bus_not_found(bus_id@) && final(self)@ == old(
                    self,
                )@,
            },
    {
        match find_bus(bus_id) {
            None => Err(concat3("Bus '", bus_id, "' nicht gefunden")),
            Some(i) => {
                self.buses[i].volume_db = clamp(volume_db, MIN_VOLUME_DB, MAX_VOLUME_DB);
                assert(self@ =~= old(self)@.update(i as int, self.buses@[i as int]@));
                Ok(())
            },
        }
    }

    /// Mutes a bus or lifts the mute.
    pub fn set_mute(&mut self, bus_id: &str, muted: bool) -> (r: Result<(), String>)
        requires
            old(self).wf(),
        ensures
            final(self).wf(),
            match bus_index(bus_id@) {
                Some(i) => r is Ok && final(self)@ == old(self)@.update(
                    i,
                    BusView { muted, ..old(self)@[i] },
                ),
                None => r is Err && r->Err_0@ == bus_not_found(bus_id@) && final(self)@ == old(
                    self,
                )@,
            },
    {
        match find_bus(bus_id) {
            None => Err(concat3("Bus '", bus_id, "' nicht gefunden")),
            Some(i) => {
                self.buses[i].muted = muted;
                assert(self@ =~= old(self)@.update(i as int, self.buses@[i as int]@));
                Ok(())
            },
        }
    }

    /// Switches the recording of a bus on or off.
    pub fn set_recording(&mut self, bus_id: &str, recording: bool) -> (r: Result<(), String>)
        requires
            old(self).wf(),
        ensures
            final(self).wf(),
            match bus_index(bus_id@) {
                Some(i) => r is Ok && final(self)@ == old(self)@.update(
                    i,
                    BusView { recording, ..old(self)@[i] },
                ),
                None => r is Err && r->Err_0@ == bus_not_found(bus_id@) && final(self)@ == old(
                    self,
                )@,
            },
    {
        match find_bus(bus_id) {
            None => Err(concat3("Bus '", bus_id, "' nicht gefunden")),
            Some(i) => {
                self.buses[i].recording = recording;
                assert(self@ =~= old(self)@.update(i as int, self.buses@[i as int]@));
                Ok(())
            },
        }
    }

    /// The number of buses.
    pub fn bus_count(&self) -> (r: usize)
        ensures
            r == self@.len(),
    {
        self.buses.len()
    }
}

/// A bus is found exactly if its identifier is one of the four.
pub proof fn lemma_bus_index_valid(id: Seq<char>)
    ensures
        bus_index(id) is Some <==> valid_bus_id(id),
        bus_index(id) is Some ==> 0 <= bus_index(id)->0 < 4 && bus_ids()[bus_index(id)->0] == id,
{
}

} // verus!
