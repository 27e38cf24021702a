//! Level metering: peak with hold and decay, RMS, and a sticky clipping flag
//! for every registered strip.
//!
//! Levels are linear amplitudes in millionths of full scale, and a buffer is
//! taken in as the magnitudes of its samples.

use vstd::prelude::*;
use vstd::string::*;
use crate::measure::{calculate_peak_rms, calculate_peak_rms_channel, channel, peak_of, rms_of};
use crate::text::{str_eq, texts};
use crate::units::{Level, FULL_SCALE};

verus! {

/// Updates for which a new peak is held before it starts to fall: a second
/// and a half at sixty updates per second.
pub const PEAK_HOLD_FRAMES: u32 = 90;

/// What is left of a held peak after one update of falling, in millionths:
/// half a decibel less.
pub const PEAK_FALL: u64 = 944_061;

/// The levels of one strip, as they are shown.
#[derive(Debug, Clone)]
pub struct StripLevels {
    /// The strip.
    pub strip_id: String,
    /// Held peak of the left channel.
    pub peak_l: Level,
    /// Held peak of the right channel.
    pub peak_r: Level,
    /// RMS of the left channel.
    pub rms_l: Level,
    /// RMS of the right channel.
    pub rms_r: Level,
    /// Whether the strip has clipped since the flag was last reset.
    pub clipping: bool,
}

/// What a meter keeps between updates.
#[derive(Debug, Clone, Copy, PartialEq, Eq, Structural)]
pub struct MeterState {
    /// Peak of the last buffer, left.
    pub peak_l: Level,
    /// Peak of the last buffer, right.
    pub peak_r: Level,
    /// RMS of the last buffer, left.
    pub rms_l: Level,
    /// RMS of the last buffer, right.
    pub rms_r: Level,
    /// Updates of hold that are left, left channel.
    pub peak_hold_l: u32,
    /// Updates of hold that are left, right channel.
    pub peak_hold_r: u32,
    /// Held peak, left.
    pub held_peak_l: Level,
    /// Held peak, right.
    pub held_peak_r: Level,
    /// Whether the strip has clipped.
    pub clipping: bool,
}

/// What was measured on one buffer.
#[derive(Debug, Clone, Copy, PartialEq, Eq, Structural)]
pub struct BufferLevels {
    /// Peak of the left channel.
    pub peak_l: Level,
    /// Peak of the right channel.
    pub peak_r: Level,
    /// RMS of the left channel.
    pub rms_l: Level,
    /// RMS of the right channel.
    pub rms_r: Level,
}

/// What is measured on a buffer of magnitudes. With two channels or more the
/// buffer holds left and right by turns; with fewer it is mono, and both
/// channels show the same.
pub open spec fn measured(samples: Seq<Level>, channels: u32) -> BufferLevels {
    if channels >= 2 {
        BufferLevels {
            peak_l: peak_of(channel(samples, 0, 2)),
            peak_r: peak_of(channel(samples, 1, 2)),
            rms_l: rms_of(channel(samples, 0, 2)) as Level,
            rms_r: rms_of(channel(samples, 1, 2)) as Level,
        }
    } else {
        BufferLevels {
            peak_l: peak_of(samples),
            peak_r: peak_of(samples),
            rms_l: rms_of(samples) as Level,
            rms_r: rms_of(samples) as Level,
        }
    }
}

/// Measures a buffer of magnitudes.
pub fn measure_buffer(samples: &[Level], channels: u32) -> (r: BufferLevels)
    ensures
        r == measured(samples@, channels),
{
    if channels >= 2 {
        let (peak_l, rms_l) = calculate_peak_rms_channel(samples, 0, 2);
        let (peak_r, rms_r) = calculate_peak_rms_channel(samples, 1, 2);
        BufferLevels { peak_l, peak_r, rms_l, rms_r }
    } else {
        let (peak, rms) = calculate_peak_rms(samples);
        BufferLevels { peak_l: peak, peak_r: peak, rms_l: rms, rms_r: rms }
    }
}

/// A held peak after one update of falling.
pub open spec fn fallen(held: Level) -> Level {
    (held as int * PEAK_FALL as int / 1_000_000) as Level
}

/// The held peak and its hold after an update with the peak of a new buffer:
/// a peak that reaches the held one takes its place and is held anew; else
/// the hold runs down, and once it has, the held peak falls.
pub open spec fn held_after(held: Level, hold: u32, peak: Level) -> (Level, u32) {
    if peak >= held {
        (peak, PEAK_HOLD_FRAMES)
    } else if hold > 0 {
        (held, (hold - 1) as u32)
    } else {
        (fallen(held), hold)
    }
}

/// A meter after an update with the levels of a new buffer. The clipping
/// flag is set by a peak at full scale and is never cleared here.
pub open spec fn meter_after(m: MeterState, b: BufferLevels) -> MeterState {
    MeterState {
        peak_l: b.peak_l,
        peak_r: b.peak_r,
        rms_l: b.rms_l,
        rms_r: b.rms_r,
        peak_hold_l: held_after(m.held_peak_l, m.peak_hold_l, b.peak_l).1,
        peak_hold_r: held_after(m.held_peak_r, m.peak_hold_r, b.peak_r).1,
        held_peak_l: held_after(m.held_peak_l, m.peak_hold_l, b.peak_l).0,
        held_peak_r: held_after(m.held_peak_r, m.peak_hold_r, b.peak_r).0,
        clipping: m.clipping || b.peak_l >= FULL_SCALE || b.peak_r >= FULL_SCALE,
    }
}

impl MeterState {
    /// A meter that has seen nothing.
    pub open spec fn silent() -> MeterState {
        MeterState {
            peak_l: 0,
            peak_r: 0,
            rms_l: 0,
            rms_r: 0,
            peak_hold_l: 0,
            peak_hold_r: 0,
            held_peak_l: 0,
            held_peak_r: 0,
            clipping: false,
        }
    }

    /// A meter that has seen nothing: every level at zero, not clipped.
    pub fn new() -> (r: Self)
        ensures
            r == Self::silent(),
    {
        MeterState {
            peak_l: 0,
            peak_r: 0,
            rms_l: 0,
            rms_r: 0,
            peak_hold_l: 0,
            peak_hold_r: 0,
            held_peak_l: 0,
            held_peak_r: 0,
            clipping: false,
        }
    }
}

/// Updates one held peak and its hold.
pub fn hold_peak(held: Level, hold: u32, peak: Level) -> (r: (Level, u32))
    ensures
        r == held_after(held, hold, peak),
{
    if peak >= held {
        (peak, PEAK_HOLD_FRAMES)
    } else if hold > 0 {
        (held, hold - 1)
    } else {
        let wide: u64 = (held as u64) * PEAK_FALL / 1_000_000;
        (wide as u32, hold)
    }
}

/// Updates a meter with the levels of a new buffer.
pub fn update_meter(meter: &mut MeterState, peak_l: Level, peak_r: Level, rms_l: Level, rms_r: Level)
    ensures
        *final(meter) == meter_after(*old(meter), BufferLevels { peak_l, peak_r, rms_l, rms_r }),
{
    meter.rms_l = rms_l;
    meter.rms_r = rms_r;
    meter.peak_l = peak_l;
    meter.peak_r = peak_r;
    if peak_l >= FULL_SCALE || peak_r >= FULL_SCALE {
        meter.clipping = true;
    }
    let (held_l, hold_l) = hold_peak(meter.held_peak_l, meter.peak_hold_l, peak_l);
    meter.held_peak_l = held_l;
    meter.peak_hold_l = hold_l;
    let (held_r, hold_r) = hold_peak(meter.held_peak_r, meter.peak_hold_r, peak_r);
    meter.held_peak_r = held_r;
    meter.peak_hold_r = hold_r;
}

/// A meter that has clipped shows so after every update, whatever comes.
pub proof fn lemma_clipping_sticks(m: MeterState, b: BufferLevels)
    requires
        m.clipping,
    ensures
        meter_after(m, b).clipping,
{
}

/// A peak at full scale sets the clipping flag, and without one the flag
/// stays as it was.
pub proof fn lemma_clipping_set_by_full_scale(m: MeterState, b: BufferLevels)
    ensures
        (b.peak_l >= FULL_SCALE || b.peak_r >= FULL_SCALE) ==> meter_after(m, b).clipping,
        (b.peak_l < FULL_SCALE && b.peak_r < FULL_SCALE) ==> meter_after(m, b).clipping
            == m.clipping,
{
}

/// A meter that holds no peak and has not clipped shows zero on every level
/// after a silent buffer, and has still not clipped.
pub proof fn lemma_silence_shows_nothing(m: MeterState)
    requires
        m.held_peak_l == 0,
        m.held_peak_r == 0,
        !m.clipping,
    ensures
        meter_after(m, BufferLevels { peak_l: 0, peak_r: 0, rms_l: 0, rms_r: 0 }).held_peak_l == 0,
        meter_after(m, BufferLevels { peak_l: 0, peak_r: 0, rms_l: 0, rms_r: 0 }).held_peak_r == 0,
        meter_after(m, BufferLevels { peak_l: 0, peak_r: 0, rms_l: 0, rms_r: 0 }).rms_l == 0,
        meter_after(m, BufferLevels { peak_l: 0, peak_r: 0, rms_l: 0, rms_r: 0 }).rms_r == 0,
        !meter_after(m, BufferLevels { peak_l: 0, peak_r: 0, rms_l: 0, rms_r: 0 }).clipping,
{
}

/// A peak that reaches the held peak takes its place at once and is held
/// anew. Below it, the held peak keeps its value while its hold runs; it
/// falls only once the hold has run down, and then it does fall.
pub proof fn lemma_held_peak(held: Level, hold: u32, peak: Level)
    ensures
        peak >= held ==> held_after(held, hold, peak) == (peak, PEAK_HOLD_FRAMES),
        peak < held && hold > 0 ==> held_after(held, hold, peak).0 == held,
        held_after(held, hold, peak).0 < held ==> hold == 0 && peak < held,
        peak < held && hold == 0 ==> held_after(held, hold, peak).0 < held,
{
}

/// The meters that stand under `names`, each name with the meter at its place.
pub open spec fn table(names: Seq<Seq<char>>, states: Seq<MeterState>) -> Map<
    Seq<char>,
    MeterState,
> {
    Map::new(|k: Seq<char>| names.contains(k), |k: Seq<char>| states[names.index_of(k)])
}

/// In a list without duplicates a name is found where it stands.
proof fn lemma_index(names: Seq<Seq<char>>, i: int)
    requires
        names.no_duplicates(),
        0 <= i < names.len(),
    ensures
        names.contains(names[i]),
        names.index_of(names[i]) == i,
{
}

/// A new name with its meter at the end of the lists is one more entry.
proof fn lemma_table_push(
    names: Seq<Seq<char>>,
    states: Seq<MeterState>,
    name: Seq<char>,
    state: MeterState,
)
    requires
        names.no_duplicates(),
        names.len() == states.len(),
        !names.contains(name),
    ensures
        names.push(name).no_duplicates(),
        table(names.push(name), states.push(state)) == table(names, states).insert(name, state),
{
    let n2 = names.push(name);
    assert forall|k: Seq<char>| n2.contains(k) <==> (names.contains(k) || k == name) by {
        if names.contains(k) {
            let i = choose|i: int| 0 <= i < names.len() && names[i] == k;
            assert(n2[i] == k);
        }
        if k == name {
            assert(n2[names.len() as int] == k);
        }
    }
}

/// Another meter at the place of a name is another value for that name.
proof fn lemma_table_update(
    names: Seq<Seq<char>>,
    states: Seq<MeterState>,
    i: int,
    state: MeterState,
)
    requires
        names.no_duplicates(),
        names.len() == states.len(),
        0 <= i < names.len(),
    ensures
        table(names, states.update(i, state)) == table(names, states).insert(names[i], state),
{
    lemma_index(names, i);
}

/// A name taken out of the lists with its meter is an entry less.
proof fn lemma_table_remove(names: Seq<Seq<char>>, states: Seq<MeterState>, i: int)
    requires
        names.no_duplicates(),
        names.len() == states.len(),
        0 <= i < names.len(),
    ensures
        names.remove(i).no_duplicates(),
        table(names.remove(i), states.remove(i)) == table(names, states).remove(names[i]),
{
    let n2 = names.remove(i);
    assert forall|k: Seq<char>| n2.contains(k) <==> (names.contains(k) && k != names[i]) by {
        if names.contains(k) && k != names[i] {
            let j = choose|j: int| 0 <= j < names.len() && names[j] == k;
            let a = if j < i {
                j
            } else {
                j - 1
            };
            assert(n2[a] == k);
        }
    }
}

/// What a meter shows of a strip: the held peaks, the RMS of the last
/// buffer, and the clipping flag.
pub open spec fn shows(levels: StripLevels, id: Seq<char>, m: MeterState) -> bool {
    &&& levels.strip_id@ == id
    &&& levels.peak_l == m.held_peak_l
    &&& levels.peak_r == m.held_peak_r
    &&& levels.rms_l == m.rms_l
    &&& levels.rms_r == m.rms_r
    &&& levels.clipping == m.clipping
}

/// The meters of the registered strips. Its view maps each registered strip
/// to its meter.
pub struct MeteringEngine {
    ids: Vec<String>,
    states: Vec<MeterState>,
}

impl View for MeteringEngine {
    type V = Map<Seq<char>, MeterState>;

    closed spec fn view(&self) -> Map<Seq<char>, MeterState> {
        table(texts(self.ids@), self.states@)
    }
}

impl MeteringEngine {
    /// Every strip is stored once, with its meter.
    pub closed spec fn wf(&self) -> bool {
        &&& texts(self.ids@).no_duplicates()
        &&& self.ids@.len() == self.states@.len()
    }

    /// The registered strips are finitely many.
    pub proof fn lemma_finite(&self)
        ensures
            self@.dom().finite(),
            self.wf() ==> self@.dom().len() == self.count(),
    {
        let names = texts(self.ids@);
        vstd::seq_lib::seq_to_set_is_finite(names);
        if self.wf() {
            names.unique_seq_to_set();
        }
    }

    /// The number of stored strips.
    pub closed spec fn count(&self) -> nat {
        self.ids@.len()
    }

    /// An engine without strips.
    pub fn new() -> (r: Self)
        ensures
            r.wf(),
            r@ == Map::<Seq<char>, MeterState>::empty(),
    {
        let r = MeteringEngine { ids: Vec::new(), states: Vec::new() };
        r
    }

    /// Where the strip is stored, if it is registered.
    fn find(&self, strip_id: &str) -> (r: Option<usize>)
        requires
            self.wf(),
        ensures
            match r {
                Some(i) => i < self.ids@.len() && self.ids@[i as int]@ == strip_id@
                    && self@.contains_key(strip_id@) && self@[strip_id@] == self.states@[i as int],
                None => !self@.contains_key(strip_id@) && !texts(self.ids@).contains(
                    strip_id@,
                ),
            },
    {
        let mut i: usize = 0;
        while i < self.ids.len()
            invariant
                self.wf(),
                i <= self.ids@.len(),
                forall|j: int| 0 <= j < i ==> texts(self.ids@)[j] != strip_id@,
            decreases self.ids@.len() - i,
        {
            if str_eq(self.ids[i].as_str(), strip_id) {
                proof {
                    lemma_index(texts(self.ids@), i as int);
                }
                return Some(i);
            }
            i += 1;
        }
        None
    }

    /// Registers a strip with a meter that has seen nothing. A strip that is
    /// registered keeps its meter.
    pub fn register_strip(&mut self, strip_id: &str)
        requires
            old(self).wf(),
        ensures
            final(self).wf(),
            final(self)@ == if old(self)@.contains_key(strip_id@) {
                old(self)@
            } else {
                old(self)@.insert(strip_id@, MeterState::silent())
            },
    {
        if self.find(strip_id).is_none() {
            proof {
                lemma_table_push(
                    texts(self.ids@),
                    self.states@,
                    strip_id@,
                    MeterState::silent(),
                );
            }
            let ghost names = texts(self.ids@);
            self.ids.push(strip_id.to_owned());
            self.states.push(MeterState::new());
            assert(texts(self.ids@) =~= names.push(strip_id@));
        }
    }

    /// Takes a strip and its meter out; a strip that is not registered
    /// changes nothing.
    pub fn unregister_strip(&mut self, strip_id: &str)
        requires
            old(self).wf(),
        ensures
            final(self).wf(),
            final(self)@ == old(self)@.remove(strip_id@),
    {
        if let Some(i) = self.find(strip_id) {
            let ghost names = texts(self.ids@);
            proof {
                lemma_table_remove(names, self.states@, i as int);
            }
            self.ids.remove(i);
            self.states.remove(i);
            assert(texts(self.ids@) =~= names.remove(i as int));
        }
    }

    /// Takes in a buffer of magnitudes and updates the meter of the strip
    /// with what is measured on it; a strip that is not registered is
    /// registered first. An empty buffer changes nothing at all: no level,
    /// and no registration.
    pub fn process_buffer(&mut self, strip_id: &str, samples: &[Level], channels: u32)
        requires
            old(self).wf(),
        ensures
            final(self).wf(),
            samples@.len() == 0 ==> final(self)@ == old(self)@,
            samples@.len() > 0 ==> final(self)@ == old(self)@.insert(
                strip_id@,
                meter_after(
                    if old(self)@.contains_key(strip_id@) {
                        old(self)@[strip_id@]
                    } else {
                        MeterState::silent()
                    },
                    measured(samples@, channels),
                ),
            ),
    {
        if samples.len() == 0 {
            return ;
        }
        self.register_strip(strip_id);
        let levels = measure_buffer(samples, channels);
        if let Some(i) = self.find(strip_id) {
            proof {
                lemma_table_update(
                    texts(self.ids@),
                    self.states@,
                    i as int,
                    meter_after(self.states@[i as int], levels),
                );
            }
            let mut meter = self.states[i];
            update_meter(&mut meter, levels.peak_l, levels.peak_r, levels.rms_l, levels.rms_r);
            self.states.set(i, meter);
        }
    }

    /// The levels of one strip, if it is registered.
    pub fn get_strip_levels(&self, strip_id: &str) -> (r: Option<StripLevels>)
        requires
            self.wf(),
        ensures
            match r {
                Some(levels) => self@.contains_key(strip_id@) && shows(
                    levels,
                    strip_id@,
                    self@[strip_id@],
                ),
                None => !self@.contains_key(strip_id@),
            },
    {
        match self.find(strip_id) {
            Some(i) => {
                let m = &self.states[i];
                Some(
                    StripLevels {
                        strip_id: strip_id.to_owned(),
                        peak_l: m.held_peak_l,
                        peak_r: m.held_peak_r,
                        rms_l: m.rms_l,
                        rms_r: m.rms_r,
                        clipping: m.clipping,
                    },
                )
            },
            None => None,
        }
    }

    /// The levels of every registered strip, each strip once.
    pub fn get_levels(&self) -> (r: Vec<StripLevels>)
        requires
            self.wf(),
        ensures
            r@.len() == self@.dom().len(),
            forall|i: int|
                0 <= i < r@.len() ==> self@.contains_key((#[trigger] r@[i]).strip_id@) && shows(
                    r@[i],
                    r@[i].strip_id@,
                    self@[r@[i].strip_id@],
                ),
            forall|i: int, j: int|
                0 <= i < j < r@.len() ==> (#[trigger] r@[i]).strip_id@ != (
                #[trigger] r@[j]).strip_id@,
            forall|id: Seq<char>|
                self@.contains_key(id) ==> exists|i: int|
                    0 <= i < r@.len() && (#[trigger] r@[i]).strip_id@ == id,
    {
        let mut out: Vec<StripLevels> = Vec::new();
        let mut i: usize = 0;
        while i < self.ids.len()
            invariant
                self.wf(),
                i <= self.ids@.len(),
                out@.len() == i,
                forall|j: int|
                    0 <= j < i ==> (#[trigger] out@[j]).strip_id@ == self.ids@[j]@ && shows(
                        out@[j],
                        self.ids@[j]@,
                        self.states@[j],
                    ),
            decreases self.ids@.len() - i,
        {
            let m = &self.states[i];
            out.push(
                StripLevels {
                    strip_id: self.ids[i].clone(),
                    peak_l: m.held_peak_l,
                    peak_r: m.held_peak_r,
                    rms_l: m.rms_l,
                    rms_r: m.rms_r,
                    clipping: m.clipping,
                },
            );
            i += 1;
        }
        proof {
            self.lemma_finite();
            let names = texts(self.ids@);
            assert forall|k: int| 0 <= k < out@.len() implies self@.contains_key(
                (#[trigger] out@[k]).strip_id@,
            ) && shows(out@[k], out@[k].strip_id@, self@[out@[k].strip_id@]) by {
                lemma_index(names, k);
            }
            assert forall|a: int, b: int| 0 <= a < b < out@.len() implies (
            #[trigger] out@[a]).strip_id@ != (#[trigger] out@[b]).strip_id@ by {
                assert(names[a] == out@[a].strip_id@);
                assert(names[b] == out@[b].strip_id@);
            }
            assert forall|id: Seq<char>| self@.contains_key(id) implies exists|k: int|
                0 <= k < out@.len() && (#[trigger] out@[k]).strip_id@ == id by {
                let k = names.index_of(id);
                assert(out@[k].strip_id@ == id);
            }
        }
        out
    }

    /// Clears the clipping flag of a strip; a strip that is not registered
    /// changes nothing.
    pub fn reset_clipping(&mut self, strip_id: &str)
        requires
            old(self).wf(),
        ensures
            final(self).wf(),
            final(self)@ == if old(self)@.contains_key(strip_id@) {
                old(self)@.insert(
                    strip_id@,
                    MeterState { clipping: false, ..old(self)@[strip_id@] },
                )
            } else {
                old(self)@
            },
    {
        match self.find(strip_id) {
            Some(i) => {
                proof {
                    lemma_table_update(
                        texts(self.ids@),
                        self.states@,
                        i as int,
                        MeterState { clipping: false, ..self.states@[i as int] },
                    );
                }
                let mut meter = self.states[i];
                meter.clipping = false;
                self.states.set(i, meter);
            },
            None => {},
        }
    }

    /// The number of registered strips.
    pub fn strip_count(&self) -> (r: usize)
        requires
            self.wf(),
        ensures
            r == self@.dom().len(),
    {
        proof {
            self.lemma_finite();
        }
        self.ids.len()
    }
}

} // verus!
