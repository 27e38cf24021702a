//! The audio server: what it reports, and the port of each bus.

use vstd::prelude::*;
use vstd::string::*;
use crate::bus::{bus_index, find_bus};
use crate::scan::{
    all_digits,
    contains,
    find,
    find_char,
    holds,
    is_space,
    is_whitespace,
    lemma_find_char,
    lemma_trimmed,
    lowercase,
    parse_u32,
    parsed,
    skip_spaces,
    stands_at,
    starts_at,
    strip,
    stripped,
    to_chars,
    to_lowercase,
    trim,
    trimmed,
};
use crate::text::{concat2, concat3, str_eq};

verus! {

/// One audio device of the server.
#[derive(Debug, Clone)]
pub struct AudioDevice {
    /// The node of the device.
    pub id: u32,
    /// The name that is shown.
    pub name: String,
    /// `source` for an input, `sink` for an output.
    pub device_type: String,
    /// The number of channels.
    pub channels: u32,
}

/// The state of the connection to the server.
#[derive(Debug, Clone, PartialEq)]
pub enum PipeWireStatus {
    /// Not connected.
    Disconnected,
    /// The connection is being made.
    Connecting,
    /// Connected.
    Connected,
    /// The connection failed, with the reason.
    Error(String),
}

/// What the server reports of itself.
#[derive(Debug, Clone)]
pub struct PipeWireInfo {
    /// The version of the server.
    pub version: String,
    /// Whether the server runs.
    pub running: bool,
    /// Samples per second of the default output.
    pub sample_rate: u32,
    /// Samples per buffer.
    pub buffer_size: u32,
}

/// The message for a server that does not run.
pub open spec fn not_running() -> Seq<char> {
    "PipeWire ist nicht aktiv. Bitte stelle sicher, dass PipeWire läuft.\nStarte PipeWire mit: systemctl --user start pipewire pipewire-pulse wireplumber"@
}

/// Whether the server can be used, from what it reports: it has to run.
pub fn check_pipewire_available(info: &PipeWireInfo) -> (r: Result<(), String>)
    ensures
        info.running ==> r is Ok,
        !info.running ==> r is Err && r->Err_0@ == not_running(),
{
    if !info.running {
        return Err(
            "PipeWire ist nicht aktiv. Bitte stelle sicher, dass PipeWire läuft.\nStarte PipeWire mit: systemctl --user start pipewire pipewire-pulse wireplumber".to_owned(),
        );
    }
    Ok(())
}

/// The input port of a bus.
pub open spec fn bus_port(bus_id: Seq<char>) -> Option<Seq<char>> {
    match bus_index(bus_id) {
        Some(_) => Some("inoX-Bus-"@ + bus_id + ":input_FL"@),
        None => None,
    }
}

/// The input port of a bus; anything but a bus is refused.
pub fn map_bus_to_port(bus_id: &str) -> (r: Result<String, String>)
    ensures
        match bus_port(bus_id@) {
            Some(port) => r is Ok && r->Ok_0@ == port,
            None => r is Err && r->Err_0@ == "Ungültige Bus-ID: "@ + bus_id@,
        },
{
    match find_bus(bus_id) {
        Some(_) => Ok(crate::text::concat3("inoX-Bus-", bus_id, ":input_FL")),
        None => Err(concat2("Ungültige Bus-ID: ", bus_id)),
    }
}

/// What an audio device holds, with its texts as character sequences.
pub struct DeviceView {
    pub id: u32,
    pub name: Seq<char>,
    pub device_type: Seq<char>,
    pub channels: u32,
}

impl View for AudioDevice {
    type V = DeviceView;

    open spec fn view(&self) -> DeviceView {
        DeviceView {
            id: self.id,
            name: self.name@,
            device_type: self.device_type@,
            channels: self.channels,
        }
    }
}

/// The views of a list of devices, in order.
pub open spec fn device_views(devices: Seq<AudioDevice>) -> Seq<DeviceView> {
    devices.map_values(|d: AudioDevice| d@)
}

/// Whether a node takes audio in or gives it out.
#[derive(Debug, Clone, Copy, PartialEq, Eq, Structural)]
pub enum NodeKind {
    /// Not said yet.
    Unknown,
    /// A source.
    Input,
    /// A sink.
    Output,
}

/// What has been read of the node whose block is being read: its number, the
/// stretch of the listing that holds its name, its kind, its channels.
#[derive(Debug, Clone, Copy, PartialEq, Eq, Structural)]
pub struct NodeBlock {
    pub id: Option<u32>,
    pub name_from: usize,
    pub name_to: usize,
    pub kind: NodeKind,
    pub channels: u32,
}

/// A block of which nothing has been read: no number, no name, stereo.
pub open spec fn fresh_block() -> NodeBlock {
    NodeBlock { id: None, name_from: 0, name_to: 0, kind: NodeKind::Unknown, channels: 2 }
}

/// The device type as it is written.
pub open spec fn kind_text(kind: NodeKind) -> Seq<char> {
    match kind {
        NodeKind::Unknown => ""@,
        NodeKind::Input => "input"@,
        NodeKind::Output => "output"@,
    }
}

/// What stands behind the first `=` of a line, up to the next `=` or the end
/// of the line; nothing for a line without `=`.
pub open spec fn value_stretch(s: Seq<char>, from: int, to: int) -> Option<(int, int)> {
    let e1 = find_char(s, from, to, '=');
    if e1 >= to {
        None
    } else {
        Some((e1 + 1, find_char(s, e1 + 1, to, '=')))
    }
}

/// A line `id N, ...` gives the number of the node.
pub open spec fn with_id(s: Seq<char>, a: int, b: int, st: NodeBlock) -> NodeBlock {
    if stands_at(s, a, b, "id "@) {
        let comma = find_char(s, a + 3, b, ',');
        let (x, y) = trimmed(s, a + 3, comma);
        match parsed(s, x, y) {
            Some(id) => NodeBlock { id: Some(id), ..st },
            None => st,
        }
    } else {
        st
    }
}

/// A line that holds `node.name` or `media.name` gives the name: what stands
/// behind the `=`, without white space and quotes at its ends.
pub open spec fn with_name(s: Seq<char>, a: int, b: int, st: NodeBlock) -> NodeBlock {
    if holds(s, a, b, "node.name"@) || holds(s, a, b, "media.name"@) {
        match value_stretch(s, a, b) {
            Some((x, y)) => {
                let (u, v) = stripped(s, x, y, '"');
                NodeBlock { name_from: u as usize, name_to: v as usize, ..st }
            },
            None => st,
        }
    } else {
        st
    }
}

/// A line that holds `media.class` gives the kind: a class that holds
/// `Source` or `Input` is an input, one that holds `Sink` or `Output` an
/// output, and any other says nothing.
pub open spec fn with_kind(s: Seq<char>, a: int, b: int, st: NodeBlock) -> NodeBlock {
    if holds(s, a, b, "media.class"@) {
        match value_stretch(s, a, b) {
            Some((x, y)) => {
                let (u, v) = stripped(s, x, y, '"');
                if holds(s, u, v, "Source"@) || holds(s, u, v, "Input"@) {
                    NodeBlock { kind: NodeKind::Input, ..st }
                } else if holds(s, u, v, "Sink"@) || holds(s, u, v, "Output"@) {
                    NodeBlock { kind: NodeKind::Output, ..st }
                } else {
                    st
                }
            },
            None => st,
        }
    } else {
        st
    }
}

/// A line that holds `audio.channels` gives the channels, where a number
/// stands behind the `=`.
pub open spec fn with_channels(s: Seq<char>, a: int, b: int, st: NodeBlock) -> NodeBlock {
    if holds(s, a, b, "audio.channels"@) {
        match value_stretch(s, a, b) {
            Some((x, y)) => {
                let (u, v) = trimmed(s, x, y);
                match parsed(s, u, v) {
                    Some(channels) => NodeBlock { channels, ..st },
                    None => st,
                }
            },
            None => st,
        }
    } else {
        st
    }
}

/// The block after one more line was read. The line is read without the
/// white space at its ends, for its number, its name, its kind and its
/// channels, in this order.
pub open spec fn line_read(s: Seq<char>, from: int, to: int, st: NodeBlock) -> NodeBlock {
    let (a, b) = trimmed(s, from, to);
    with_channels(s, a, b, with_kind(s, a, b, with_name(s, a, b, with_id(s, a, b, st))))
}

/// Whether a block is a device: it has a number and a name.
pub open spec fn complete(st: NodeBlock) -> bool {
    st.id is Some && st.name_from < st.name_to
}

/// The device that a complete block describes.
pub open spec fn device_of(s: Seq<char>, st: NodeBlock) -> DeviceView {
    DeviceView {
        id: st.id->0,
        name: s.subrange(st.name_from as int, st.name_to as int),
        device_type: kind_text(st.kind),
        channels: st.channels,
    }
}

/// The devices of a listing from the line that begins at `pos` on, with the
/// block `st` being read. A blank line ends a block, and so does the end of
/// the listing; a block that is complete then is a device, and the next
/// block starts fresh.
pub open spec fn devices_from(s: Seq<char>, pos: int, st: NodeBlock) -> Seq<DeviceView>
    decreases s.len() - pos,
{
    if pos > s.len() {
        Seq::<DeviceView>::empty()
    } else {
        let eol = find_char(s, pos, s.len() as int, '\n');
        let st2 = line_read(s, pos, eol, st);
        let blank = trimmed(s, pos, eol).0 == trimmed(s, pos, eol).1;
        let ends = blank || eol >= s.len();
        let head = if ends && complete(st2) {
            seq![device_of(s, st2)]
        } else {
            Seq::<DeviceView>::empty()
        };
        let st3 = if ends && complete(st2) {
            fresh_block()
        } else {
            st2
        };
        if eol >= s.len() {
            head
        } else {
            proof {
                lemma_find_char(s, pos, s.len() as int, '\n');
            }
            head + devices_from(s, eol + 1, st3)
        }
    }
}

/// The devices that a listing of nodes describes.
pub open spec fn listed_devices(s: Seq<char>) -> Seq<DeviceView> {
    devices_from(s, 0, fresh_block())
}

/// Reads one line of a listing into the block.
pub fn read_line(chars: &Vec<char>, from: usize, to: usize, st: NodeBlock) -> (r: NodeBlock)
    requires
        from <= to <= chars@.len(),
        st.name_from <= st.name_to <= chars@.len(),
    ensures
        r == line_read(chars@, from as int, to as int, st),
        r.name_from <= r.name_to <= chars@.len(),
{
    let ghost s = chars@;
    let (a, b) = trim(chars, from, to);
    let mut r = st;
    proof {
        reveal_strlit("id ");
    }
    if starts_at(chars, a, b, &to_chars("id ")) {
        let comma = find(chars, a + 3, b, ',');
        let (x, y) = trim(chars, a + 3, comma);
        if let Some(id) = parse_u32(chars, x, y) {
            r.id = Some(id);
        }
    }
    assert(r == with_id(s, a as int, b as int, st));
    let ghost r1 = r;
    let named = contains(chars, a, b, &to_chars("node.name")) || contains(
        chars,
        a,
        b,
        &to_chars("media.name"),
    );
    let classed = contains(chars, a, b, &to_chars("media.class"));
    let counted = contains(chars, a, b, &to_chars("audio.channels"));
    if named || classed || counted {
        let e1 = find(chars, a, b, '=');
        if e1 < b {
            let e2 = find(chars, e1 + 1, b, '=');
            if named {
                let (u, v) = strip(chars, e1 + 1, e2, '"');
                r.name_from = u;
                r.name_to = v;
            }
            assert(r == with_name(s, a as int, b as int, r1));
            let ghost r2 = r;
            if classed {
                let (u, v) = strip(chars, e1 + 1, e2, '"');
                if contains(chars, u, v, &to_chars("Source")) || contains(
                    chars,
                    u,
                    v,
                    &to_chars("Input"),
                ) {
                    r.kind = NodeKind::Input;
                } else if contains(chars, u, v, &to_chars("Sink")) || contains(
                    chars,
                    u,
                    v,
                    &to_chars("Output"),
                ) {
                    r.kind = NodeKind::Output;
                }
            }
            assert(r == with_kind(s, a as int, b as int, r2));
            let ghost r3 = r;
            if counted {
                let (u, v) = trim(chars, e1 + 1, e2);
                if let Some(channels) = parse_u32(chars, u, v) {
                    r.channels = channels;
                }
            }
            assert(r == with_channels(s, a as int, b as int, r3));
        }
    }
    r
}

/// The device that a complete block describes.
pub fn make_device(output: &str, st: NodeBlock) -> (r: AudioDevice)
    requires
        complete(st),
        st.name_to <= output@.len(),
    ensures
        r@ == device_of(output@, st),
{
    let id = match st.id {
        Some(id) => id,
        None => 0,
    };
    let device_type = match st.kind {
        NodeKind::Unknown => "",
        NodeKind::Input => "input",
        NodeKind::Output => "output",
    };
    AudioDevice {
        id,
        name: output.substring_char(st.name_from, st.name_to).to_owned(),
        device_type: device_type.to_owned(),
        channels: st.channels,
    }
}

/// Reads the devices off a listing of nodes, block by block.
pub fn parse_pw_nodes(output: &str) -> (r: Vec<AudioDevice>)
    ensures
        device_views(r@) == listed_devices(output@),
{
    let chars = to_chars(output);
    let ghost s = chars@;
    let len = chars.len();
    let mut out: Vec<AudioDevice> = Vec::new();
    let mut st = NodeBlock {
        id: None,
        name_from: 0,
        name_to: 0,
        kind: NodeKind::Unknown,
        channels: 2,
    };
    let mut pos: usize = 0;
    let mut done = false;
    assert(device_views(out@) + devices_from(s, 0, st) =~= listed_devices(s));
    while !done
        invariant
            s == chars@,
            s == output@,
            len == s.len(),
            pos <= len,
            st.name_from <= st.name_to <= len,
            !done ==> device_views(out@) + devices_from(s, pos as int, st) == listed_devices(s),
            done ==> device_views(out@) == listed_devices(s),
        decreases
                if done {
                    0
                } else {
                    len - pos + 1
                },
    {
        let ghost before = device_views(out@);
        let ghost rest = devices_from(s, pos as int, st);
        let eol = find(&chars, pos, len, '\n');
        let (a, b) = trim(&chars, pos, eol);
        let st2 = read_line(&chars, pos, eol, st);
        let ends = a == b || eol >= len;
        let mut st3 = st2;
        if ends && st2.id.is_some() && st2.name_from < st2.name_to {
            out.push(make_device(output, st2));
            st3 =
            NodeBlock { id: None, name_from: 0, name_to: 0, kind: NodeKind::Unknown, channels: 2 };
            assert(device_views(out@) =~= before + seq![device_of(s, st2)]);
        }
        if eol >= len {
            assert(device_views(out@) =~= before + rest);
            done = true;
        } else {
            assert(device_views(out@) + devices_from(s, eol + 1, st3) =~= before + rest);
            pos = eol + 1;
        }
        st = st3;
    }
    out
}

/// The end of the word that begins at `from`: the first place that holds
/// white space, or `to`.
pub open spec fn word_end(s: Seq<char>, from: int, to: int) -> int
    decreases to - from,
{
    if from >= to {
        to
    } else if is_space(s[from]) {
        from
    } else {
        word_end(s, from + 1, to)
    }
}

/// The last word from `pos` on, words being what white space divides; with
/// `digits_only`, the last word that is made of digits only. None where no
/// such word is.
pub open spec fn last_word(s: Seq<char>, pos: int, to: int, digits_only: bool) -> Option<
    (int, int),
>
    decreases to - pos,
{
    let a = skip_spaces(s, pos, to);
    if pos >= to || a >= to {
        None
    } else {
        let b = word_end(s, a + 1, to);
        proof {
            lemma_trimmed(s, pos, to);
            lemma_word_end(s, a + 1, to);
        }
        let later = last_word(s, b, to, digits_only);
        if later is Some {
            later
        } else if !digits_only || all_digits(s, a, b) {
            Some((a, b))
        } else {
            None
        }
    }
}

/// The last word of a stretch that is made of digits only.
pub open spec fn last_number(s: Seq<char>, pos: int, to: int) -> Option<(int, int)> {
    last_word(s, pos, to, true)
}

/// The end of a word lies behind its beginning.
pub proof fn lemma_word_end(s: Seq<char>, from: int, to: int)
    requires
        from <= to,
    ensures
        from <= word_end(s, from, to) <= to,
    decreases to - from,
{
    if from < to && !is_space(s[from]) {
        lemma_word_end(s, from + 1, to);
    }
}

/// Finds the last word of a stretch, or its last word of digits.
pub fn find_last_word(chars: &Vec<char>, from: usize, to: usize, digits_only: bool) -> (r: Option<
    (usize, usize),
>)
    requires
        from <= to <= chars@.len(),
    ensures
        match last_word(chars@, from as int, to as int, digits_only) {
            Some((a, b)) => r == Some((a as usize, b as usize)) && from <= a <= b <= to,
            None => r is None,
        },
{
    let ghost s = chars@;
    let mut best: Option<(usize, usize)> = None;
    let mut pos: usize = from;
    while pos < to
        invariant
            s == chars@,
            from <= pos <= to <= s.len(),
            match best {
                Some((a, b)) => from <= a <= b <= to,
                None => true,
            },
            last_word(s, from as int, to as int, digits_only) == match last_word(
                s,
                pos as int,
                to as int,
                digits_only,
            ) {
                Some(later) => Some(later),
                None => match best {
                    Some((a, b)) => Some((a as int, b as int)),
                    None => None,
                },
            },
        decreases to - pos,
    {
        let mut a = pos;
        while a < to && is_whitespace(chars[a])
            invariant
                pos <= a <= to <= chars@.len(),
                skip_spaces(chars@, pos as int, to as int) == skip_spaces(
                    chars@,
                    a as int,
                    to as int,
                ),
            decreases to - a,
        {
            a += 1;
        }
        if a >= to {
            pos = to;
        } else {
            let mut b = a + 1;
            let mut digits = {
                let n = chars[a] as u32;
                0x30 <= n && n <= 0x39
            };
            while b < to && !is_whitespace(chars[b])
                invariant
                    a < b <= to <= chars@.len(),
                    word_end(chars@, a + 1, to as int) == word_end(chars@, b as int, to as int),
                    digits == all_digits(chars@, a as int, b as int),
                decreases to - b,
            {
                let n = chars[b] as u32;
                if !(0x30 <= n && n <= 0x39) {
                    digits = false;
                }
                b += 1;
            }
            proof {
                lemma_word_end(s, b as int, to as int);
            }
            if !digits_only || digits {
                best = Some((a, b));
            }
            pos = b;
        }
    }
    best
}

/// The value of a line of settings: its last word that is a number.
pub fn extract_value_from_metadata(line: &str) -> (r: Option<&str>)
    ensures
        match last_number(line@, 0, line@.len() as int) {
            Some((a, b)) => r is Some && r->0@ == line@.subrange(a, b),
            None => r is None,
        },
{
    let chars = to_chars(line);
    match find_last_word(&chars, 0, chars.len(), true) {
        Some((a, b)) => Some(line.substring_char(a, b)),
        None => None,
    }
}

/// The version that the server's tool reports: the last word of the first
/// line of what it prints.
pub open spec fn reported_version(s: Seq<char>) -> Option<Seq<char>> {
    match last_word(s, 0, find_char(s, 0, s.len() as int, '\n'), false) {
        Some((a, b)) => Some(s.subrange(a, b)),
        None => None,
    }
}

/// Reads the version off what the server's tool prints.
pub fn parse_version(output: &str) -> (r: Option<String>)
    ensures
        match reported_version(output@) {
            Some(v) => r is Some && r->0@ == v,
            None => r is None,
        },
{
    let chars = to_chars(output);
    let eol = find(&chars, 0, chars.len(), '\n');
    match find_last_word(&chars, 0, eol, false) {
        Some((a, b)) => Some(output.substring_char(a, b).to_owned()),
        None => None,
    }
}

/// Sample rate and buffer size, as the settings of the server give them.
#[derive(Debug, Clone, Copy, PartialEq, Eq, Structural)]
pub struct AudioParams {
    /// Samples per second.
    pub sample_rate: u32,
    /// Samples per buffer.
    pub buffer_size: u32,
}

/// The number that a line of settings gives, where its last word of digits
/// is one that 32 bits hold.
pub open spec fn line_value(s: Seq<char>, from: int, to: int) -> Option<u32> {
    match last_number(s, from, to) {
        Some((a, b)) => parsed(s, a, b),
        None => None,
    }
}

/// The parameters after one more line of settings was read: a line that
/// holds `clock.rate` or `clock.force-rate` gives the sample rate, one that
/// holds `clock.quantum` or `clock.force-quantum` the buffer size.
pub open spec fn params_read(s: Seq<char>, from: int, to: int, p: AudioParams) -> AudioParams {
    let rated = if (holds(s, from, to, "clock.rate"@) || holds(s, from, to, "clock.force-rate"@))
        && line_value(s, from, to) is Some {
        AudioParams { sample_rate: line_value(s, from, to)->0, ..p }
    } else {
        p
    };
    if (holds(s, from, to, "clock.quantum"@) || holds(s, from, to, "clock.force-quantum"@))
        && line_value(s, from, to) is Some {
        AudioParams { buffer_size: line_value(s, from, to)->0, ..rated }
    } else {
        rated
    }
}

/// The parameters after every line from `pos` on was read.
pub open spec fn params_from(s: Seq<char>, pos: int, p: AudioParams) -> AudioParams
    decreases s.len() - pos,
{
    if pos > s.len() {
        p
    } else {
        let eol = find_char(s, pos, s.len() as int, '\n');
        let p2 = params_read(s, pos, eol, p);
        if eol >= s.len() {
            p2
        } else {
            proof {
                lemma_find_char(s, pos, s.len() as int, '\n');
            }
            params_from(s, eol + 1, p2)
        }
    }
}

/// Reads sample rate and buffer size off the settings of the server; what
/// the settings do not give stays at 48000 and 256.
pub fn parse_audio_params(output: &str) -> (r: AudioParams)
    ensures
        r == params_from(output@, 0, AudioParams { sample_rate: 48000, buffer_size: 256 }),
{
    let chars = to_chars(output);
    let ghost s = chars@;
    let len = chars.len();
    let mut p = AudioParams { sample_rate: 48000, buffer_size: 256 };
    let ghost start = p;
    let mut pos: usize = 0;
    let mut done = false;
    while !done
        invariant
            s == chars@,
            len == s.len(),
            pos <= len,
            !done ==> params_from(s, pos as int, p) == params_from(s, 0, start),
            done ==> p == params_from(s, 0, start),
        decreases
                if done {
                    0
                } else {
                    len - pos + 1
                },
    {
        let eol = find(&chars, pos, len, '\n');
        let value = match find_last_word(&chars, pos, eol, true) {
            Some((a, b)) => parse_u32(&chars, a, b),
            None => None,
        };
        if let Some(v) = value {
            if contains(&chars, pos, eol, &to_chars("clock.rate")) || contains(
                &chars,
                pos,
                eol,
                &to_chars("clock.force-rate"),
            ) {
                p.sample_rate = v;
            }
            if contains(&chars, pos, eol, &to_chars("clock.quantum")) || contains(
                &chars,
                pos,
                eol,
                &to_chars("clock.force-quantum"),
            ) {
                p.buffer_size = v;
            }
        }
        if eol >= len {
            done = true;
        } else {
            pos = eol + 1;
        }
    }
    p
}

/// Whether the whole text holds `pat`.
pub open spec fn text_holds(s: Seq<char>, pat: Seq<char>) -> bool {
    holds(s, 0, s.len() as int, pat)
}

/// Whether the text begins with `pat`.
pub open spec fn begins_with(s: Seq<char>, pat: Seq<char>) -> bool {
    stands_at(s, 0, s.len() as int, pat)
}

/// Whether an input device is the source: the first microphone is the
/// analog device, the second the USB device, `hw-input-N` the node `N`, and
/// any other source the device whose name holds the source's, both taken in
/// lower case.
pub open spec fn matches_source(
    name: Seq<char>,
    name_lower: Seq<char>,
    id: u32,
    source: Seq<char>,
    source_lower: Seq<char>,
) -> bool {
    if source == "hw-mic-1"@ || source == "mic-1"@ {
        text_holds(name, "analog"@)
    } else if source == "hw-mic-2"@ || source == "mic-2"@ {
        text_holds(name, "usb"@)
    } else if begins_with(source, "hw-input-"@) {
        parsed(source, 9, source.len() as int) == Some(id)
    } else {
        text_holds(name_lower, source_lower)
    }
}

/// Whether a device is the node of an application: its name holds
/// `application` or `client`, and in lower case the application's name.
pub open spec fn matches_app(name: Seq<char>, name_lower: Seq<char>, app_lower: Seq<char>) -> bool {
    (text_holds(name, "application"@) || text_holds(name, "client"@)) && text_holds(
        name_lower,
        app_lower,
    )
}

/// The first input device from `from` on that is the source.
pub open spec fn first_input(devices: Seq<DeviceView>, source: Seq<char>, from: int) -> Option<int>
    decreases devices.len() - from,
{
    if from >= devices.len() {
        None
    } else if devices[from].device_type == "input"@ && matches_source(
        devices[from].name,
        lowercase(devices[from].name),
        devices[from].id,
        source,
        lowercase(source),
    ) {
        Some(from)
    } else {
        first_input(devices, source, from + 1)
    }
}

/// The first device from `from` on that is the node of the application.
pub open spec fn first_app(devices: Seq<DeviceView>, app: Seq<char>, from: int) -> Option<int>
    decreases devices.len() - from,
{
    if from >= devices.len() {
        None
    } else if matches_app(devices[from].name, lowercase(devices[from].name), lowercase(app)) {
        Some(from)
    } else {
        first_app(devices, app, from + 1)
    }
}

/// The port of a source that no device was found for: the two microphones
/// have their usual ports. Without a list of devices an application cannot
/// be routed; any other source is unknown.
pub open spec fn fallback_port(source: Seq<char>, discovered: bool) -> Result<Seq<char>, Seq<char>> {
    if source == "mic-1"@ || source == "hw-mic-1"@ {
        Ok("alsa_input.pci-0000_00_1f.3.analog-stereo:capture_FL"@)
    } else if source == "mic-2"@ || source == "hw-mic-2"@ {
        Ok("alsa_input.usb-0000_00_14.0.analog-stereo:capture_FL"@)
    } else if !discovered && begins_with(source, "app-"@) {
        Err("App-Audio Routing noch nicht implementiert: "@ + source)
    } else {
        Err("Unbekannte Source-ID: "@ + source)
    }
}

/// The port of a source, given the devices that were found, if any were
/// looked for: the capture port of the first input device that is the
/// source; else, for an application, the output port of its node, and a
/// refusal where it has none; else the port by the fallback.
pub open spec fn source_port(source: Seq<char>, devices: Option<Seq<DeviceView>>) -> Result<
    Seq<char>,
    Seq<char>,
> {
    match devices {
        Some(ds) => match first_input(ds, source, 0) {
            Some(i) => Ok(ds[i].name + ":capture_FL"@),
            None => if begins_with(source, "app-"@) {
                match first_app(ds, source.subrange(4, source.len() as int), 0) {
                    Some(i) => Ok(ds[i].name + ":output_FL"@),
                    None => Err(
                        "App-Audio Node nicht gefunden für: "@ + source
                            + ". Stelle sicher, dass die Anwendung Audio abspielt."@,
                    ),
                }
            } else {
                fallback_port(source, true)
            },
        },
        None => fallback_port(source, false),
    }
}

/// Whether the whole text holds `pat`.
pub fn text_contains(text: &str, pat: &str) -> (r: bool)
    ensures
        r == text_holds(text@, pat@),
{
    let chars = to_chars(text);
    contains(&chars, 0, chars.len(), &to_chars(pat))
}

/// Whether the text begins with `pat`.
pub fn text_begins(text: &str, pat: &str) -> (r: bool)
    ensures
        r == begins_with(text@, pat@),
{
    let chars = to_chars(text);
    starts_at(&chars, 0, chars.len(), &to_chars(pat))
}

/// Whether an input device is the source, given both names in lower case.
pub fn device_matches(
    name: &str,
    name_lower: &str,
    id: u32,
    source_id: &str,
    source_lower: &str,
) -> (r: bool)
    ensures
        r == matches_source(name@, name_lower@, id, source_id@, source_lower@),
{
    if str_eq(source_id, "hw-mic-1") || str_eq(source_id, "mic-1") {
        text_contains(name, "analog")
    } else if str_eq(source_id, "hw-mic-2") || str_eq(source_id, "mic-2") {
        text_contains(name, "usb")
    } else if text_begins(source_id, "hw-input-") {
        proof {
            reveal_strlit("hw-input-");
        }
        let chars = to_chars(source_id);
        match parse_u32(&chars, 9, chars.len()) {
            Some(n) => n == id,
            None => false,
        }
    } else {
        text_contains(name_lower, source_lower)
    }
}

/// Whether a device is the node of an application, given its name and the
/// application's in lower case.
pub fn app_matches(name: &str, name_lower: &str, app_lower: &str) -> (r: bool)
    ensures
        r == matches_app(name@, name_lower@, app_lower@),
{
    (text_contains(name, "application") || text_contains(name, "client")) && text_contains(
        name_lower,
        app_lower,
    )
}

/// The port of a source that no device was found for.
pub fn map_source_fallback(source_id: &str, discovered: bool) -> (r: Result<String, String>)
    ensures
        match fallback_port(source_id@, discovered) {
            Ok(port) => r is Ok && r->Ok_0@ == port,
            Err(msg) => r is Err && r->Err_0@ == msg,
        },
{
    if str_eq(source_id, "mic-1") || str_eq(source_id, "hw-mic-1") {
        Ok("alsa_input.pci-0000_00_1f.3.analog-stereo:capture_FL".to_owned())
    } else if str_eq(source_id, "mic-2") || str_eq(source_id, "hw-mic-2") {
        Ok("alsa_input.usb-0000_00_14.0.analog-stereo:capture_FL".to_owned())
    } else if !discovered && text_begins(source_id, "app-") {
        Err(concat2("App-Audio Routing noch nicht implementiert: ", source_id))
    } else {
        Err(concat2("Unbekannte Source-ID: ", source_id))
    }
}

/// The port of a source. `devices` holds the devices that were found, or
/// nothing where they could not be looked for.
pub fn map_source_to_port(source_id: &str, devices: Option<&Vec<AudioDevice>>) -> (r: Result<
    String,
    String,
>)
    ensures
        match source_port(
            source_id@,
            match devices {
                Some(ds) => Some(device_views(ds@)),
                None => None,
            },
        ) {
            Ok(port) => r is Ok && r->Ok_0@ == port,
            Err(msg) => r is Err && r->Err_0@ == msg,
        },
{
    let ds = match devices {
        Some(ds) => ds,
        None => {
            return map_source_fallback(source_id, false);
        },
    };
    let ghost views = device_views(ds@);
    let source_lower = to_lowercase(source_id);
    let mut i: usize = 0;
    while i < ds.len()
        invariant
            i <= ds@.len(),
            devices == Some(ds),
            views == device_views(ds@),
            source_lower@ == lowercase(source_id@),
            first_input(views, source_id@, 0) == first_input(views, source_id@, i as int),
        decreases ds@.len() - i,
    {
        let d = &ds[i];
        assert(views[i as int] == d@);
        if str_eq(d.device_type.as_str(), "input") {
            let name_lower = to_lowercase(d.name.as_str());
            if device_matches(
                d.name.as_str(),
                name_lower.as_str(),
                d.id,
                source_id,
                source_lower.as_str(),
            ) {
                return Ok(concat2(d.name.as_str(), ":capture_FL"));
            }
        }
        i += 1;
    }
    if !text_begins(source_id, "app-") {
        return map_source_fallback(source_id, true);
    }
    proof {
        reveal_strlit("app-");
    }
    let chars = to_chars(source_id);
    let app_lower = to_lowercase(source_id.substring_char(4, chars.len()));
    let mut j: usize = 0;
    while j < ds.len()
        invariant
            j <= ds@.len(),
            devices == Some(ds),
            views == device_views(ds@),
            first_input(views, source_id@, 0) is None,
            begins_with(source_id@, "app-"@),
            source_id@.len() >= 4,
            app_lower@ == lowercase(source_id@.subrange(4, source_id@.len() as int)),
            first_app(views, source_id@.subrange(4, source_id@.len() as int), 0) == first_app(
                views,
                source_id@.subrange(4, source_id@.len() as int),
                j as int,
            ),
        decreases ds@.len() - j,
    {
        let d = &ds[j];
        assert(views[j as int] == d@);
        let name_lower = to_lowercase(d.name.as_str());
        if app_matches(d.name.as_str(), name_lower.as_str(), app_lower.as_str()) {
            return Ok(concat2(d.name.as_str(), ":output_FL"));
        }
        j += 1;
    }
    Err(
        concat3(
            "App-Audio Node nicht gefunden für: ",
            source_id,
            ". Stelle sicher, dass die Anwendung Audio abspielt.",
        ),
    )
}

/// The stem of a node's name: what stands before its first `.` and there
/// before the first `-`.
pub open spec fn app_stem(name: Seq<char>) -> Seq<char> {
    name.subrange(0, find_char(name, 0, find_char(name, 0, name.len() as int, '.'), '-'))
}

/// The name of the application behind a node: the stem of the node's name in
/// lower case, as in `firefox` for `Firefox.instance123`.
pub fn extract_app_name(node_name: &str) -> (r: String)
    ensures
        r@ == lowercase(app_stem(node_name@)),
{
    let chars = to_chars(node_name);
    let dot = find(&chars, 0, chars.len(), '.');
    let dash = find(&chars, 0, dot, '-');
    to_lowercase(node_name.substring_char(0, dash))
}

/// A name cut to `max_len` characters: a longer name keeps its first
/// `max_len - 3` characters, and three dots follow.
pub open spec fn truncated(name: Seq<char>, max_len: int) -> Seq<char> {
    if name.len() <= max_len {
        name
    } else {
        name.subrange(0, max_len - 3) + "..."@
    }
}

/// Cuts a name to `max_len` characters.
pub fn truncate_name(name: &str, max_len: usize) -> (r: String)
    requires
        max_len >= 3,
    ensures
        r@ == truncated(name@, max_len as int),
{
    let n = name.unicode_len();
    if n <= max_len {
        name.to_owned()
    } else {
        concat2(name.substring_char(0, max_len - 3), "...")
    }
}

} // verus!
