//! Input strips: the channels of the mixer and their controls.

use vstd::prelude::*;
use vstd::string::*;
use crate::text::{
    clone_texts,
    concat2,
    concat3,
    decimal,
    format_count,
    lemma_decimal_injective,
    str_eq,
    texts,
};
use crate::units::{clamp, clamped, Milli};

verus! {

/// The most strips that a mixer holds, hardware and virtual together.
pub const MAX_STRIPS: usize = 10;

/// Lowest volume: -50 dB.
pub const MIN_VOLUME_DB: Milli = -50_000;

/// Highest volume: +10 dB.
pub const MAX_VOLUME_DB: Milli = 10_000;

/// Lowest gain: -20 dB.
pub const MIN_GAIN_DB: Milli = -20_000;

/// Highest gain: +20 dB.
pub const MAX_GAIN_DB: Milli = 20_000;

/// Pan fully left.
pub const MIN_PAN: Milli = -1_000;

/// Pan fully right.
pub const MAX_PAN: Milli = 1_000;

/// The kind of an input strip.
#[derive(Debug, Clone, Copy, PartialEq, Eq, Structural)]
pub enum StripType {
    /// A hardware input: microphone, headset, line-in.
    Hardware,
    /// A virtual input.
    Virtual,
}

/// One input strip.
#[derive(Debug, Clone)]
pub struct InputStrip {
    /// The identifier, unique in the mixer.
    pub id: String,
    /// The name that is shown.
    pub label: String,
    /// Hardware or virtual.
    pub strip_type: StripType,
    /// The device that feeds the strip, if one is assigned.
    pub device_id: Option<u32>,
    /// Volume in thousandths of a decibel, -50..+10 dB.
    pub volume_db: Milli,
    /// Gain in thousandths of a decibel, -20..+20 dB.
    pub gain_db: Milli,
    /// Whether the strip is muted.
    pub muted: bool,
    /// Whether the strip is soloed.
    pub solo: bool,
    /// Pan in thousandths, from -1 (left) to 1 (right).
    pub pan: Milli,
    /// Whether the effect chain of the strip is on.
    pub fx_enabled: bool,
    /// The buses that the strip feeds.
    pub bus_routing: Vec<String>,
    /// The icon that is shown.
    pub icon: String,
    /// The place of the strip among the others.
    pub order: u32,
}

/// What an input strip holds, with its texts as character sequences.
pub struct StripView {
    pub id: Seq<char>,
    pub label: Seq<char>,
    pub strip_type: StripType,
    pub device_id: Option<u32>,
    pub volume_db: Milli,
    pub gain_db: Milli,
    pub muted: bool,
    pub solo: bool,
    pub pan: Milli,
    pub fx_enabled: bool,
    pub bus_routing: Seq<Seq<char>>,
    pub icon: Seq<char>,
    pub order: u32,
}

impl View for InputStrip {
    type V = StripView;

    open spec fn view(&self) -> StripView {
        StripView {
            id: self.id@,
            label: self.label@,
            strip_type: self.strip_type,
            device_id: self.device_id,
            volume_db: self.volume_db,
            gain_db: self.gain_db,
            muted: self.muted,
            solo: self.solo,
            pan: self.pan,
            fx_enabled: self.fx_enabled,
            bus_routing: texts(self.bus_routing@),
            icon: self.icon@,
            order: self.order,
        }
    }
}

/// A strip as it is made: at 0 dB, centred, not muted, not soloed, without
/// effects, feeding one bus.
pub open spec fn fresh_strip(
    id: Seq<char>,
    label: Seq<char>,
    strip_type: StripType,
    bus: Seq<char>,
    icon: Seq<char>,
    order: u32,
) -> StripView {
    StripView {
        id,
        label,
        strip_type,
        device_id: None,
        volume_db: 0,
        gain_db: 0,
        muted: false,
        solo: false,
        pan: 0,
        fx_enabled: false,
        bus_routing: seq![bus],
        icon,
        order,
    }
}

impl InputStrip {
    /// A hardware strip, feeding the bus `A1`.
    pub fn new_hardware(id: &str, label: &str, icon: &str, order: u32) -> (r: Self)
        ensures
            r@ == fresh_strip(id@, label@, StripType::Hardware, "A1"@, icon@, order),
    {
        let mut buses: Vec<String> = Vec::new();
        buses.push("A1".to_owned());
        assert(texts(buses@) =~= seq!["A1"@]);
        InputStrip {
            id: id.to_owned(),
            label: label.to_owned(),
            strip_type: StripType::Hardware,
            device_id: None,
            volume_db: 0,
            gain_db: 0,
            muted: false,
            solo: false,
            pan: 0,
            fx_enabled: false,
            bus_routing: buses,
            icon: icon.to_owned(),
            order,
        }
    }

    /// A virtual strip, feeding the bus `B1`.
    pub fn new_virtual(id: &str, label: &str, icon: &str, order: u32) -> (r: Self)
        ensures
            r@ == fresh_strip(id@, label@, StripType::Virtual, "B1"@, icon@, order),
    {
        let mut buses: Vec<String> = Vec::new();
        buses.push("B1".to_owned());
        assert(texts(buses@) =~= seq!["B1"@]);
        InputStrip {
            id: id.to_owned(),
            label: label.to_owned(),
            strip_type: StripType::Virtual,
            device_id: None,
            volume_db: 0,
            gain_db: 0,
            muted: false,
            solo: false,
            pan: 0,
            fx_enabled: false,
            bus_routing: buses,
            icon: icon.to_owned(),
            order,
        }
    }

    /// A copy of the strip.
    pub fn duplicate(&self) -> (r: Self)
        ensures
            r@ == self@,
    {
        InputStrip {
            id: self.id.clone(),
            label: self.label.clone(),
            strip_type: self.strip_type,
            device_id: self.device_id,
            volume_db: self.volume_db,
            gain_db: self.gain_db,
            muted: self.muted,
            solo: self.solo,
            pan: self.pan,
            fx_enabled: self.fx_enabled,
            bus_routing: clone_texts(&self.bus_routing),
            icon: self.icon.clone(),
            order: self.order,
        }
    }
}

/// Whether volume, gain and pan of a strip lie in their ranges.
pub open spec fn in_ranges(s: StripView) -> bool {
    &&& MIN_VOLUME_DB <= s.volume_db <= MAX_VOLUME_DB
    &&& MIN_GAIN_DB <= s.gain_db <= MAX_GAIN_DB
    &&& MIN_PAN <= s.pan <= MAX_PAN
}

/// The views of a list of strips, in order.
pub open spec fn views(strips: Seq<InputStrip>) -> Seq<StripView> {
    strips.map_values(|s: InputStrip| s@)
}

/// The identifiers of a list of strips, in order.
pub open spec fn ids(strips: Seq<StripView>) -> Seq<Seq<char>> {
    strips.map_values(|s: StripView| s.id)
}

/// Where the strip `id` stands in the list, if it is there.
pub open spec fn position(strips: Seq<StripView>, id: Seq<char>) -> Option<int> {
    if ids(strips).contains(id) {
        Some(ids(strips).index_of(id))
    } else {
        None
    }
}

/// Whether the strips stand by rising order.
pub open spec fn ordered(strips: Seq<StripView>) -> bool {
    forall|i: int, j: int|
        0 <= i <= j < strips.len() ==> (#[trigger] strips[i]).order <= (#[trigger] strips[j]).order
}

/// Where a strip of the given order goes in: behind every strip whose order
/// is not higher.
pub open spec fn slot(strips: Seq<StripView>, order: u32) -> int
    decreases strips.len(),
{
    if strips.len() == 0 {
        0
    } else if strips.last().order <= order {
        strips.len() as int
    } else {
        slot(strips.drop_last(), order)
    }
}

/// The identifier of the `n`-th virtual strip.
pub open spec fn virtual_id(n: nat) -> Seq<char> {
    "virt-"@ + decimal(n)
}

/// The name of the `n`-th virtual strip.
pub open spec fn virtual_label(n: nat) -> Seq<char> {
    "VIRTUAL "@ + decimal(n)
}

/// The message for a strip that is not there.
pub open spec fn strip_not_found(id: Seq<char>) -> Seq<char> {
    "Strip '"@ + id + "' nicht gefunden"@
}

/// A list of names without every occurrence of `name`.
pub open spec fn without(list: Seq<Seq<char>>, name: Seq<char>) -> Seq<Seq<char>> {
    list.filter(|x: Seq<char>| x != name)
}

/// The buses of a strip after the feed to `bus` was switched: switched on, the
/// bus is added unless it is there; switched off, it is taken out wherever it
/// stands.
pub open spec fn bus_switched(buses: Seq<Seq<char>>, bus: Seq<char>, active: bool) -> Seq<
    Seq<char>,
> {
    if active {
        if buses.contains(bus) {
            buses
        } else {
            buses.push(bus)
        }
    } else {
        without(buses, bus)
    }
}

/// The strips that a new mixer holds: three hardware strips and two virtual
/// ones.
pub open spec fn default_strips() -> Seq<StripView> {
    seq![
        fresh_strip("hw-mic"@, "USB MIC"@, StripType::Hardware, "A1"@, "🎙️"@, 0),
        fresh_strip("hw-headset"@, "HEADSET"@, StripType::Hardware, "A1"@, "🎧"@, 1),
        fresh_strip("hw-line"@, "LINE IN"@, StripType::Hardware, "A1"@, "🔌"@, 2),
        fresh_strip("virt-1"@, "VIRTUAL 1"@, StripType::Virtual, "B1"@, "◆"@, 3),
        fresh_strip("virt-2"@, "VIRTUAL 2"@, StripType::Virtual, "B1"@, "◇"@, 4),
    ]
}

/// The strips of a mixer. Its view is the list of strips by rising order.
pub struct MixerState {
    strips: Vec<InputStrip>,
    next_virtual_id: u32,
}

impl View for MixerState {
    type V = Seq<StripView>;

    closed spec fn view(&self) -> Seq<StripView> {
        views(self.strips@)
    }
}

impl MixerState {
    /// The number that the next virtual strip gets.
    pub closed spec fn next_id(&self) -> u32 {
        self.next_virtual_id
    }

    /// No identifier occurs twice, the strips stand by rising order, there
    /// are no more than the mixer holds, volume, gain and pan of each lie in
    /// their ranges, and the identifiers of virtual strips to come are free.
    pub open spec fn wf(&self) -> bool {
        &&& ids(self@).no_duplicates()
        &&& ordered(self@)
        &&& self@.len() <= MAX_STRIPS
        &&& forall|i: int| 0 <= i < self@.len() ==> in_ranges(#[trigger] self@[i])
        &&& forall|n: nat| n >= self.next_id() ==> !ids(self@).contains(#[trigger] virtual_id(n))
    }
}

/// A strip whose identifier stands at `i` in a list without duplicates is
/// found there.
pub proof fn lemma_position(strips: Seq<StripView>, i: int)
    requires
        ids(strips).no_duplicates(),
        0 <= i < strips.len(),
    ensures
        position(strips, strips[i].id) == Some(i),
{
    let names = ids(strips);
    assert(names[i] == strips[i].id);
}

/// Replacing a strip by one with the same identifier and order keeps the
/// identifiers and the order of the list.
pub proof fn lemma_update_keeps_order(strips: Seq<StripView>, i: int, s: StripView)
    requires
        0 <= i < strips.len(),
        s.id == strips[i].id,
        s.order == strips[i].order,
    ensures
        ids(strips.update(i, s)) == ids(strips),
        ordered(strips) ==> ordered(strips.update(i, s)),
{
}

/// The slot of a strip lies behind every strip of no higher order and before
/// every strip of higher order.
pub proof fn lemma_slot(strips: Seq<StripView>, order: u32)
    requires
        ordered(strips),
    ensures
        0 <= slot(strips, order) <= strips.len(),
        forall|j: int| 0 <= j < slot(strips, order) ==> (#[trigger] strips[j]).order <= order,
        forall|j: int|
            slot(strips, order) <= j < strips.len() ==> (#[trigger] strips[j]).order > order,
    decreases strips.len(),
{
    if strips.len() > 0 && strips.last().order > order {
        let rest = strips.drop_last();
        lemma_slot(rest, order);
        assert forall|j: int| 0 <= j < slot(strips, order) implies (#[trigger] strips[j]).order
            <= order by {
            assert(rest[j].order <= order);
        }
        assert forall|j: int| slot(strips, order) <= j < strips.len() implies (
        #[trigger] strips[j]).order > order by {
            if j < rest.len() {
                assert(rest[j].order > order);
            }
        }
    }
}

/// Two virtual strips with different numbers have different identifiers.
pub proof fn lemma_virtual_ids_differ(a: nat, b: nat)
    requires
        a != b,
    ensures
        virtual_id(a) != virtual_id(b),
{
    if virtual_id(a) == virtual_id(b) {
        let p = "virt-"@;
        assert(virtual_id(a).subrange(p.len() as int, virtual_id(a).len() as int) =~= decimal(a));
        assert(virtual_id(b).subrange(p.len() as int, virtual_id(b).len() as int) =~= decimal(b));
        lemma_decimal_injective(a, b);
    }
}

impl MixerState {
    /// Where the strip `strip_id` is stored, if it is.
    fn find(&self, strip_id: &str) -> (r: Option<usize>)
        requires
            ids(self@).no_duplicates(),
        ensures
            match r {
                Some(i) => i < self@.len() && position(self@, strip_id@) == Some(i as int)
                    && self@[i as int].id == strip_id@,
                None => position(self@, strip_id@) is None,
            },
    {
        let mut i: usize = 0;
        while i < self.strips.len()
            invariant
                i <= self.strips@.len(),
                self@.len() == self.strips@.len(),
                ids(self@).no_duplicates(),
                forall|j: int| 0 <= j < i ==> ids(self@)[j] != strip_id@,
            decreases self.strips@.len() - i,
        {
            if str_eq(self.strips[i].id.as_str(), strip_id) {
                proof {
                    lemma_position(self@, i as int);
                }
                return Some(i);
            }
            i += 1;
        }
        None
    }

    /// A mixer with three hardware strips and two virtual strips.
    pub fn new() -> (r: Self)
        ensures
            r.wf(),
            r@ == default_strips(),
            r.next_id() == 3,
    {
        let mut strips: Vec<InputStrip> = Vec::new();
        strips.push(InputStrip::new_hardware("hw-mic", "USB MIC", "🎙️", 0));
        strips.push(InputStrip::new_hardware("hw-headset", "HEADSET", "🎧", 1));
        strips.push(InputStrip::new_hardware("hw-line", "LINE IN", "🔌", 2));
        strips.push(InputStrip::new_virtual("virt-1", "VIRTUAL 1", "◆", 3));
        strips.push(InputStrip::new_virtual("virt-2", "VIRTUAL 2", "◇", 4));
        let r = MixerState { strips, next_virtual_id: 3 };
        proof {
            assert(r@ =~= default_strips());
            lemma_default_strips();
        }
        r
    }

    /// Every strip, by rising order.
    pub fn get_strips(&self) -> (r: Vec<InputStrip>)
        ensures
            views(r@) == self@,
    {
        let mut out: Vec<InputStrip> = Vec::new();
        let mut i: usize = 0;
        while i < self.strips.len()
            invariant
                i <= self.strips@.len(),
                out@.len() == i,
                forall|j: int| 0 <= j < i ==> (#[trigger] out@[j])@ == self.strips@[j]@,
            decreases self.strips@.len() - i,
        {
            out.push(self.strips[i].duplicate());
            i += 1;
        }
        out
    }

    /// The strip `strip_id`, if the mixer holds it.
    pub fn get_strip(&self, strip_id: &str) -> (r: Option<&InputStrip>)
        requires
            self.wf(),
        ensures
            match position(self@, strip_id@) {
                Some(i) => r is Some && r->0@ == self@[i],
                None => r is None,
            },
    {
        match self.find(strip_id) {
            Some(i) => Some(&self.strips[i]),
            None => None,
        }
    }

    /// The number that the next virtual strip gets.
    pub fn next_virtual_number(&self) -> (r: u32)
        ensures
            r == self.next_id(),
    {
        self.next_virtual_id
    }

    /// The number of strips.
    pub fn strip_count(&self) -> (r: usize)
        ensures
            r == self@.len(),
    {
        self.strips.len()
    }
}

/// The strips of a new mixer are well-formed, and the virtual strips from the
/// third on are still to come.
pub proof fn lemma_default_strips()
    ensures
        ids(default_strips()).no_duplicates(),
        ordered(default_strips()),
        forall|i: int| 0 <= i < default_strips().len() ==> in_ranges(#[trigger] default_strips()[i]),
        forall|n: nat| n >= 3 ==> !ids(default_strips()).contains(#[trigger] virtual_id(n)),
{
    reveal_strlit("hw-mic");
    reveal_strlit("hw-headset");
    reveal_strlit("hw-line");
    reveal_strlit("virt-1");
    reveal_strlit("virt-2");
    reveal_strlit("virt-");
    let d = default_strips();
    let names = ids(d);
    assert("virt-1"@[5] != "virt-2"@[5]);
    assert("hw-mic"@.len() != "hw-headset"@.len());
    assert("virt-1"@ =~= virtual_id(1)) by {
        reveal_with_fuel(decimal, 2);
    }
    assert("virt-2"@ =~= virtual_id(2)) by {
        reveal_with_fuel(decimal, 2);
    }
    assert forall|n: nat| n >= 3 implies !names.contains(#[trigger] virtual_id(n)) by {
        lemma_virtual_ids_differ(1, n);
        lemma_virtual_ids_differ(2, n);
        assert(virtual_id(n)[0] == 'v');
    }
}

impl MixerState {
    /// Sets the volume of a strip, limited to -50..+10 dB.
    pub fn set_volume(&mut self, strip_id: &str, volume_db: Milli) -> (r: Result<(), String>)
        requires
            old(self).wf(),
        ensures
            final(self).wf(),
            final(self).next_id() == old(self).next_id(),
            match position(old(self)@, strip_id@) {
                Some(i) => r is Ok && final(self)@ == old(self)@.update(
                    i,
                    StripView {
                        volume_db: clamped(
                            volume_db as int,
                            MIN_VOLUME_DB as int,
                            MAX_VOLUME_DB as int,
                        ) as i32,
                        ..old(self)@[i]
                    },
                ),
                None => r is Err && r->Err_0@ == strip_not_found(strip_id@) && final(self)@ == old(
                    self,
                )@,
            },
    {
        match self.find(strip_id) {
            None => Err(concat3("Strip '", strip_id, "' nicht gefunden")),
            Some(i) => {
                self.strips[i].volume_db = clamp(volume_db, MIN_VOLUME_DB, MAX_VOLUME_DB);
                proof {
                    let s = self.strips@[i as int]@;
                    assert(self@ =~= old(self)@.update(i as int, s));
                    lemma_update_keeps_order(old(self)@, i as int, s);
                }
                Ok(())
            },
        }
    }

    /// Sets the gain of a strip, limited to -20..+20 dB.
    pub fn set_gain(&mut self, strip_id: &str, gain_db: Milli) -> (r: Result<(), String>)
        requires
            old(self).wf(),
        ensures
            final(self).wf(),
            final(self).next_id() == old(self).next_id(),
            match position(old(self)@, strip_id@) {
                Some(i) => r is Ok && final(self)@ == old(self)@.update(
                    i,
                    StripView {
                        gain_db: clamped(gain_db as int, MIN_GAIN_DB as int, MAX_GAIN_DB as int) as i32,
                        ..old(self)@[i]
                    },
                ),
                None => r is Err && r->Err_0@ == strip_not_found(strip_id@) && final(self)@ == old(
                    self,
                )@,
            },
    {
        match self.find(strip_id) {
            None => Err(concat3("Strip '", strip_id, "' nicht gefunden")),
            Some(i) => {
                self.strips[i].gain_db = clamp(gain_db, MIN_GAIN_DB, MAX_GAIN_DB);
                proof {
                    let s = self.strips@[i as int]@;
                    assert(self@ =~= old(self)@.update(i as int, s));
                    lemma_update_keeps_order(old(self)@, i as int, s);
                }
                Ok(())
            },
        }
    }

    /// Mutes a strip or lifts the mute.
    pub fn set_mute(&mut self, strip_id: &str, muted: bool) -> (r: Result<(), String>)
        requires
            old(self).wf(),
        ensures
            final(self).wf(),
            final(self).next_id() == old(self).next_id(),
            match position(old(self)@, strip_id@) {
                Some(i) => r is Ok && final(self)@ == old(self)@.update(
                    i,
                    StripView { muted, ..old(self)@[i] },
                ),
                None => r is Err && r->Err_0@ == strip_not_found(strip_id@) && final(self)@ == old(
                    self,
                )@,
            },
    {
        match self.find(strip_id) {
            None => Err(concat3("Strip '", strip_id, "' nicht gefunden")),
            Some(i) => {
                self.strips[i].muted = muted;
                proof {
                    let s = self.strips@[i as int]@;
                    assert(self@ =~= old(self)@.update(i as int, s));
                    lemma_update_keeps_order(old(self)@, i as int, s);
                }
                Ok(())
            },
        }
    }

    /// Solos a strip or lifts the solo.
    pub fn set_solo(&mut self, strip_id: &str, solo: bool) -> (r: Result<(), String>)
        requires
            old(self).wf(),
        ensures
            final(self).wf(),
            final(self).next_id() == old(self).next_id(),
            match position(old(self)@, strip_id@) {
                Some(i) => r is Ok && final(self)@ == old(self)@.update(
                    i,
                    StripView { solo, ..old(self)@[i] },
                ),
                None => r is Err && r->Err_0@ == strip_not_found(strip_id@) && final(self)@ == old(
                    self,
                )@,
            },
    {
        match self.find(strip_id) {
            None => Err(concat3("Strip '", strip_id, "' nicht gefunden")),
            Some(i) => {
                self.strips[i].solo = solo;
                proof {
                    let s = self.strips@[i as int]@;
                    assert(self@ =~= old(self)@.update(i as int, s));
                    lemma_update_keeps_order(old(self)@, i as int, s);
                }
                Ok(())
            },
        }
    }

    /// Sets the pan of a strip, limited to -1..1.
    pub fn set_pan(&mut self, strip_id: &str, pan: Milli) -> (r: Result<(), String>)
        requires
            old(self).wf(),
        ensures
            final(self).wf(),
            final(self).next_id() == old(self).next_id(),
            match position(old(self)@, strip_id@) {
                Some(i) => r is Ok && final(self)@ == old(self)@.update(
                    i,
                    StripView {
                        pan: clamped(pan as int, MIN_PAN as int, MAX_PAN as int) as i32,
                        ..old(self)@[i]
                    },
                ),
                None => r is Err && r->Err_0@ == strip_not_found(strip_id@) && final(self)@ == old(
                    self,
                )@,
            },
    {
        match self.find(strip_id) {
            None => Err(concat3("Strip '", strip_id, "' nicht gefunden")),
            Some(i) => {
                self.strips[i].pan = clamp(pan, MIN_PAN, MAX_PAN);
                proof {
                    let s = self.strips@[i as int]@;
                    assert(self@ =~= old(self)@.update(i as int, s));
                    lemma_update_keeps_order(old(self)@, i as int, s);
                }
                Ok(())
            },
        }
    }

    /// Switches the effect chain of a strip on or off.
    pub fn set_fx_enabled(&mut self, strip_id: &str, enabled: bool) -> (r: Result<(), String>)
        requires
            old(self).wf(),
        ensures
            final(self).wf(),
            final(self).next_id() == old(self).next_id(),
            match position(old(self)@, strip_id@) {
                Some(i) => r is Ok && final(self)@ == old(self)@.update(
                    i,
                    StripView { fx_enabled: enabled, ..old(self)@[i] },
                ),
                None => r is Err && r->Err_0@ == strip_not_found(strip_id@) && final(self)@ == old(
                    self,
                )@,
            },
    {
        match self.find(strip_id) {
            None => Err(concat3("Strip '", strip_id, "' nicht gefunden")),
            Some(i) => {
                self.strips[i].fx_enabled = enabled;
                proof {
                    let s = self.strips@[i as int]@;
                    assert(self@ =~= old(self)@.update(i as int, s));
                    lemma_update_keeps_order(old(self)@, i as int, s);
                }
                Ok(())
            },
        }
    }

    /// Switches the feed of a strip to a bus on or off.
    pub fn set_bus_routing(&mut self, strip_id: &str, bus_id: &str, active: bool) -> (r: Result<
        (),
        String,
    >)
        requires
            old(self).wf(),
        ensures
            final(self).wf(),
            final(self).next_id() == old(self).next_id(),
            match position(old(self)@, strip_id@) {
                Some(i) => r is Ok && final(self)@ == old(self)@.update(
                    i,
                    StripView {
                        bus_routing: bus_switched(old(self)@[i].bus_routing, bus_id@, active),
                        ..old(self)@[i]
                    },
                ),
                None => r is Err && r->Err_0@ == strip_not_found(strip_id@) && final(self)@ == old(
                    self,
                )@,
            },
    {
        match self.find(strip_id) {
            None => Err(concat3("Strip '", strip_id, "' nicht gefunden")),
            Some(i) => {
                let buses = switch_bus(&self.strips[i].bus_routing, bus_id, active);
                self.strips[i].bus_routing = buses;
                proof {
                    let s = self.strips@[i as int]@;
                    assert(self@ =~= old(self)@.update(i as int, s));
                    lemma_update_keeps_order(old(self)@, i as int, s);
                }
                Ok(())
            },
        }
    }
}

/// The buses of a strip after the feed to `bus_id` was switched.
pub fn switch_bus(buses: &Vec<String>, bus_id: &str, active: bool) -> (r: Vec<String>)
    ensures
        texts(r@) == bus_switched(texts(buses@), bus_id@, active),
{
    let ghost keep = |x: Seq<char>| x != bus_id@;
    let mut out: Vec<String> = Vec::new();
    let mut found = false;
    let mut i: usize = 0;
    proof {
        reveal(Seq::filter);
    }
    while i < buses.len()
        invariant
            i <= buses@.len(),
            keep == (|x: Seq<char>| x != bus_id@),
            found <==> texts(buses@).take(i as int).contains(bus_id@),
            if active {
                texts(out@) == texts(buses@).take(i as int)
            } else {
                texts(out@) == texts(buses@).take(i as int).filter(keep)
            },
        decreases buses@.len() - i,
    {
        let same = str_eq(buses[i].as_str(), bus_id);
        let ghost before = texts(buses@).take(i as int);
        let ghost item = buses@[i as int]@;
        proof {
            assert(texts(buses@).take(i + 1) =~= before.push(item));
            before.lemma_filter_push(item, keep);
            assert(before.push(item).contains(bus_id@) <==> before.contains(bus_id@) || item
                == bus_id@) by {
                if item == bus_id@ {
                    assert(before.push(item)[before.len() as int] == bus_id@);
                }
            }
        }
        if same {
            found = true;
        }
        if active || !same {
            out.push(buses[i].clone());
        }
        i += 1;
    }
    assert(texts(buses@).take(i as int) =~= texts(buses@));
    if active && !found {
        out.push(bus_id.to_owned());
    }
    out
}

/// The message for a full mixer.
pub open spec fn mixer_full() -> Seq<char> {
    "Maximale Anzahl von 10 Strips erreicht"@
}

/// The message for an attempt to remove a hardware strip.
pub open spec fn only_virtual_removed() -> Seq<char> {
    "Nur Virtual-Strips können entfernt werden"@
}

/// The virtual strip that a mixer with `count` strips makes as its `n`-th.
pub open spec fn virtual_strip(n: nat, count: nat) -> StripView {
    fresh_strip(virtual_id(n), virtual_label(n), StripType::Virtual, "B1"@, "◇"@, count as u32)
}

impl MixerState {
    /// Adds a virtual strip, unless the mixer is full. The strip gets the
    /// next free number and, as its order, the number of strips before it.
    pub fn add_virtual_strip(&mut self) -> (r: Result<InputStrip, String>)
        requires
            old(self).wf(),
            old(self).next_id() < u32::MAX,
        ensures
            final(self).wf(),
            if old(self)@.len() >= MAX_STRIPS {
                &&& r is Err
                &&& r->Err_0@ == mixer_full()
                &&& final(self)@ == old(self)@
                &&& final(self).next_id() == old(self).next_id()
            } else {
                &&& r is Ok
                &&& r->Ok_0@ == virtual_strip(old(self).next_id() as nat, old(self)@.len())
                &&& final(self)@ == old(self)@.insert(
                    slot(old(self)@, old(self)@.len() as u32),
                    r->Ok_0@,
                )
                &&& final(self).next_id() == old(self).next_id() + 1
            },
    {
        if self.strips.len() >= MAX_STRIPS {
            return Err("Maximale Anzahl von 10 Strips erreicht".to_owned());
        }
        let number = format_count(self.next_virtual_id as u64);
        let id = concat2("virt-", number.as_str());
        let label = concat2("VIRTUAL ", number.as_str());
        let order = self.strips.len() as u32;
        let strip = InputStrip::new_virtual(id.as_str(), label.as_str(), "◇", order);
        let ghost before = self@;
        let ghost n = self.next_virtual_id as nat;
        let mut p: usize = self.strips.len();
        while p > 0 && self.strips[p - 1].order > order
            invariant
                p <= self.strips@.len(),
                self@ == before,
                ordered(before),
                forall|j: int| p <= j < before.len() ==> (#[trigger] before[j]).order > order,
            decreases p,
        {
            p -= 1;
        }
        proof {
            lemma_slot_is(before, order, p as int);
        }
        let copy = strip.duplicate();
        self.strips.insert(p, strip);
        self.next_virtual_id = self.next_virtual_id + 1;
        proof {
            let s = copy@;
            let after = before.insert(p as int, s);
            assert(self@ =~= after);
            assert(ids(after) =~= ids(before).insert(p as int, s.id));
            assert forall|m: nat| m >= n + 1 implies !ids(after).contains(
                #[trigger] virtual_id(m),
            ) by {
                lemma_virtual_ids_differ(n, m);
            }
        }
        Ok(copy)
    }

    /// Removes a virtual strip. A hardware strip stays, and the attempt is
    /// refused.
    pub fn remove_virtual_strip(&mut self, strip_id: &str) -> (r: Result<(), String>)
        requires
            old(self).wf(),
        ensures
            final(self).wf(),
            final(self).next_id() == old(self).next_id(),
            match position(old(self)@, strip_id@) {
                None => r is Err && r->Err_0@ == strip_not_found(strip_id@) && final(self)@ == old(
                    self,
                )@,
                Some(i) => if old(self)@[i].strip_type != StripType::Virtual {
                    r is Err && r->Err_0@ == only_virtual_removed() && final(self)@ == old(self)@
                } else {
                    r is Ok && final(self)@ == old(self)@.remove(i)
                },
            },
    {
        match self.find(strip_id) {
            None => Err(concat3("Strip '", strip_id, "' nicht gefunden")),
            Some(i) => {
                match self.strips[i].strip_type {
                    StripType::Hardware => Err(
                        "Nur Virtual-Strips können entfernt werden".to_owned(),
                    ),
                    StripType::Virtual => {
                        let ghost before = self@;
                        self.strips.remove(i);
                        proof {
                            let after = before.remove(i as int);
                            assert(self@ =~= after);
                            assert(ids(after) =~= ids(before).remove(i as int));
                        }
                        Ok(())
                    },
                }
            },
        }
    }
}

/// The slot is the one place that divides the strips of no higher order from
/// those of higher order.
pub proof fn lemma_slot_is(strips: Seq<StripView>, order: u32, p: int)
    requires
        ordered(strips),
        0 <= p <= strips.len(),
        forall|j: int| p <= j < strips.len() ==> (#[trigger] strips[j]).order > order,
        p > 0 ==> strips[p - 1].order <= order,
    ensures
        slot(strips, order) == p,
{
    lemma_slot(strips, order);
    if slot(strips, order) > p {
        assert(strips[p].order <= order);
    }
}

} // verus!
