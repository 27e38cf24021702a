//! The routing matrix: which source feeds which output bus.

use vstd::prelude::*;
use vstd::string::*;
use crate::bus::{is_valid_bus_id, valid_bus_id};
use crate::text::{concat2, str_eq, texts};

verus! {

/// One connection of the matrix, as handed to a control surface.
#[derive(Debug, Clone)]
pub struct RoutingEntry {
    /// The source, such as `mic-1` or `app-browser`.
    pub source_id: String,
    /// The bus: `A1`, `A2`, `B1` or `B2`.
    pub bus_id: String,
    /// Whether the connection is active.
    pub active: bool,
}

/// A (source, bus) pair, by its characters.
pub type Link = (Seq<char>, Seq<char>);

impl RoutingEntry {
    /// The pair that this entry connects.
    pub open spec fn link(self) -> Link {
        (self.source_id@, self.bus_id@)
    }
}

/// The matrix after `(source, bus)` was switched on or off.
pub open spec fn routed(m: Set<Link>, source: Seq<char>, bus: Seq<char>, active: bool) -> Set<
    Link,
> {
    if active {
        m.insert((source, bus))
    } else {
        m.remove((source, bus))
    }
}

/// What a request to route `source` to `bus` is answered with before anything
/// is changed: `None` where it is accepted, else the message of the refusal.
/// The bus is looked at first.
pub open spec fn routing_refusal(source: Seq<char>, bus: Seq<char>) -> Option<Seq<char>> {
    if !valid_bus_id(bus) {
        Some("Ungültige Bus-ID: "@ + bus)
    } else if source.len() == 0 {
        Some("Source-ID darf nicht leer sein"@)
    } else {
        None
    }
}

/// Owner of the routing matrix. Its view is the set of active pairs.
pub struct RoutingManager {
    matrix: Vec<RoutingEntry>,
}

impl View for RoutingManager {
    type V = Set<Link>;

    closed spec fn view(&self) -> Set<Link> {
        self.links().to_set()
    }
}

impl RoutingManager {
    /// The pairs of the stored entries, in storage order.
    pub closed spec fn links(&self) -> Seq<Link> {
        self.matrix@.map_values(|e: RoutingEntry| e.link())
    }

    /// No pair is stored twice, every stored entry is active, names a valid
    /// bus and has a source.
    pub closed spec fn wf(&self) -> bool {
        &&& self.links().no_duplicates()
        &&& forall|i: int|
            0 <= i < self.matrix@.len() ==> {
                &&& (#[trigger] self.matrix@[i]).active
                &&& valid_bus_id(self.matrix@[i].bus_id@)
                &&& self.matrix@[i].source_id@.len() > 0
            }
    }

    /// Every active pair names a valid bus and a source.
    pub proof fn lemma_pairs_valid(&self, source: Seq<char>, bus: Seq<char>)
        requires
            self.wf(),
            self@.contains((source, bus)),
        ensures
            valid_bus_id(bus),
            source.len() > 0,
    {
    }

    /// The matrix is a finite set.
    pub proof fn lemma_finite(&self)
        ensures
            self@.finite(),
    {
        vstd::seq_lib::seq_to_set_is_finite(self.links());
    }

    /// An empty matrix.
    pub fn new() -> (r: Self)
        ensures
            r.wf(),
            r@ == Set::<Link>::empty(),
    {
        let r = RoutingManager { matrix: Vec::new() };
        r
    }

    /// Position of the pair in storage, if it is there.
    fn find(&self, source_id: &str, bus_id: &str) -> (r: Option<usize>)
        ensures
            match r {
                Some(i) => i < self.matrix@.len() && self.links()[i as int] == (source_id@, bus_id@),
                None => !self.links().contains((source_id@, bus_id@)),
            },
    {
        let mut i: usize = 0;
        while i < self.matrix.len()
            invariant
                i <= self.matrix@.len(),
                self.links().len() == self.matrix@.len(),
                forall|j: int| 0 <= j < i ==> self.links()[j] != (source_id@, bus_id@),
            decreases self.matrix@.len() - i,
        {
            let e = &self.matrix[i];
            if str_eq(e.source_id.as_str(), source_id) && str_eq(e.bus_id.as_str(), bus_id) {
                return Some(i);
            }
            i += 1;
        }
        None
    }

    /// Validates a request without changing anything.
    pub fn check_routing(source_id: &str, bus_id: &str) -> (r: Result<(), String>)
        ensures
            match routing_refusal(source_id@, bus_id@) {
                Some(msg) => r is Err && r->Err_0@ == msg,
                None => r is Ok,
            },
    {
        if !is_valid_bus_id(bus_id) {
            return Err(concat2("Ungültige Bus-ID: ", bus_id));
        }
        if source_id.is_empty() {
            return Err("Source-ID darf nicht leer sein".to_owned());
        }
        Ok(())
    }

    /// Switches the connection of `source_id` to `bus_id` on or off. A refused
    /// request leaves the matrix as it was.
    pub fn set_routing(&mut self, source_id: &str, bus_id: &str, active: bool) -> (r: Result<
        (),
        String,
    >)
        requires
            old(self).wf(),
        ensures
            final(self).wf(),
            match routing_refusal(source_id@, bus_id@) {
                Some(msg) => r is Err && r->Err_0@ == msg && final(self)@ == old(self)@,
                None => r is Ok && final(self)@ == routed(old(self)@, source_id@, bus_id@, active),
            },
    {
        match Self::check_routing(source_id, bus_id) {
            Err(e) => {
                return Err(e);
            },
            Ok(_) => {},
        }
        let found = self.find(source_id, bus_id);
        let ghost key = (source_id@, bus_id@);
        let ghost before = self.links();
        if active {
            if found.is_none() {
                self.matrix.push(
                    RoutingEntry {
                        source_id: source_id.to_owned(),
                        bus_id: bus_id.to_owned(),
                        active: true,
                    },
                );
                proof {
                    assert(self.links() =~= before.push(key));
                    before.lemma_push_to_set_commute(key);
                }
            }
        } else if let Some(i) = found {
            self.matrix.remove(i);
            proof {
                assert(self.links() =~= before.remove(i as int));
                lemma_remove_to_set(before, i as int);
            }
        }
        Ok(())
    }

    /// Whether `source_id` is connected to `bus_id`.
    pub fn is_routed(&self, source_id: &str, bus_id: &str) -> (r: bool)
        ensures
            r == self@.contains((source_id@, bus_id@)),
    {
        self.find(source_id, bus_id).is_some()
    }

    /// Every connection, as a list of entries in no particular order. Each
    /// active pair is listed once.
    pub fn get_routing_matrix(&self) -> (r: Vec<RoutingEntry>)
        requires
            self.wf(),
        ensures
            entry_links(r@).no_duplicates(),
            entry_links(r@).to_set() == self@,
            r@.len() == self@.len(),
            forall|i: int| 0 <= i < r@.len() ==> (#[trigger] r@[i]).active,
    {
        let mut out: Vec<RoutingEntry> = Vec::new();
        let mut i: usize = 0;
        while i < self.matrix.len()
            invariant
                self.wf(),
                i <= self.matrix@.len(),
                out@.len() == i,
                forall|j: int| 0 <= j < i ==> (#[trigger] out@[j]).link() == self.matrix@[j].link(),
                forall|j: int| 0 <= j < i ==> (#[trigger] out@[j]).active,
            decreases self.matrix@.len() - i,
        {
            let e = &self.matrix[i];
            out.push(
                RoutingEntry {
                    source_id: e.source_id.clone(),
                    bus_id: e.bus_id.clone(),
                    active: e.active,
                },
            );
            i += 1;
        }
        proof {
            assert(entry_links(out@) =~= self.links());
            self.links().unique_seq_to_set();
        }
        out
    }

    /// The buses that `source_id` is connected to, each once, in no particular
    /// order.
    pub fn get_source_routing(&self, source_id: &str) -> (r: Vec<String>)
        requires
            self.wf(),
        ensures
            texts(r@).no_duplicates(),
            forall|bus: Seq<char>| texts(r@).contains(bus) <==> self@.contains((source_id@, bus)),
    {
        let mut out: Vec<String> = Vec::new();
        let mut i: usize = 0;
        while i < self.matrix.len()
            invariant
                self.wf(),
                i <= self.matrix@.len(),
                texts(out@).no_duplicates(),
                forall|bus: Seq<char>|
                    texts(out@).contains(bus) <==> exists|j: int|
                        0 <= j < i && #[trigger] self.links()[j] == (source_id@, bus),
            decreases self.matrix@.len() - i,
        {
            let e = &self.matrix[i];
            if str_eq(e.source_id.as_str(), source_id) {
                let ghost prev = texts(out@);
                let ghost bus = e.bus_id@;
                proof {
                    if prev.contains(bus) {
                        let j = choose|j: int|
                            0 <= j < i && #[trigger] self.links()[j] == (source_id@, bus);
                        assert(self.links()[i as int] == (source_id@, bus));
                        assert(false);
                    }
                }
                out.push(e.bus_id.clone());
                proof {
                    assert(texts(out@) =~= prev.push(bus));
                    assert forall|b: Seq<char>|
                        texts(out@).contains(b) <==> exists|j: int|
                            0 <= j < i + 1 && #[trigger] self.links()[j] == (source_id@, b) by {
                        if texts(out@).contains(b) {
                            let k = choose|k: int| 0 <= k < texts(out@).len() && texts(out@)[k] == b;
                            if k < prev.len() {
                                assert(prev[k] == b);
                                assert(prev.contains(b));
                            } else {
                                assert(self.links()[i as int] == (source_id@, b));
                            }
                        }
                        if exists|j: int|
                            0 <= j < i + 1 && #[trigger] self.links()[j] == (source_id@, b) {
                            let j = choose|j: int|
                                0 <= j < i + 1 && #[trigger] self.links()[j] == (source_id@, b);
                            if j < i {
                                assert(prev.contains(b));
                                let k = choose|k: int| 0 <= k < prev.len() && prev[k] == b;
                                assert(texts(out@)[k] == b);
                            } else {
                                assert(texts(out@)[prev.len() as int] == b);
                            }
                        }
                    }
                }
            } else {
                proof {
                    assert forall|b: Seq<char>|
                        texts(out@).contains(b) <==> exists|j: int|
                            0 <= j < i + 1 && #[trigger] self.links()[j] == (source_id@, b) by {
                        if exists|j: int|
                            0 <= j < i + 1 && #[trigger] self.links()[j] == (source_id@, b) {
                            let j = choose|j: int|
                                0 <= j < i + 1 && #[trigger] self.links()[j] == (source_id@, b);
                            assert(j < i);
                        }
                    }
                }
            }
            i += 1;
        }
        proof {
            assert forall|bus: Seq<char>|
                texts(out@).contains(bus) <==> self@.contains((source_id@, bus)) by {
                if self@.contains((source_id@, bus)) {
                    let j = choose|j: int|
                        0 <= j < self.links().len() && self.links()[j] == (source_id@, bus);
                    assert(self.links()[j] == (source_id@, bus));
                }
            }
        }
        out
    }

    /// Removes every connection.
    pub fn clear(&mut self)
        ensures
            final(self).wf(),
            final(self)@ == Set::<Link>::empty(),
    {
        self.matrix.clear();
    }

    /// The number of active connections.
    pub fn routing_count(&self) -> (r: usize)
        requires
            self.wf(),
        ensures
            r == self@.len(),
    {
        proof {
            self.links().unique_seq_to_set();
        }
        self.matrix.len()
    }
}

impl Default for RoutingManager {
    fn default() -> (r: Self)
        ensures
            r.wf(),
            r@ == Set::<Link>::empty(),
    {
        Self::new()
    }
}

/// The pairs of a list of entries, in order.
pub open spec fn entry_links(entries: Seq<RoutingEntry>) -> Seq<Link> {
    entries.map_values(|e: RoutingEntry| e.link())
}

/// Switching a connection on that was off, and then off again, gives back
/// the matrix as it was.
pub proof fn lemma_activate_then_deactivate(m: Set<Link>, source: Seq<char>, bus: Seq<char>)
    requires
        !m.contains((source, bus)),
    ensures
        routed(routed(m, source, bus, true), source, bus, false) == m,
{
}

/// Switching a connection on or off twice is the same as once.
pub proof fn lemma_routed_idempotent(m: Set<Link>, source: Seq<char>, bus: Seq<char>, active: bool)
    ensures
        routed(routed(m, source, bus, active), source, bus, active) == routed(
            m,
            source,
            bus,
            active,
        ),
{
}

/// Switching off a connection that is not there changes nothing.
pub proof fn lemma_deactivate_missing(m: Set<Link>, source: Seq<char>, bus: Seq<char>)
    requires
        !m.contains((source, bus)),
    ensures
        routed(m, source, bus, false) == m,
{
}

/// After a connection was switched, it is there exactly if it was switched
/// on, and every other connection is as before.
pub proof fn lemma_routed_contains(
    m: Set<Link>,
    source: Seq<char>,
    bus: Seq<char>,
    active: bool,
    other: Link,
)
    ensures
        routed(m, source, bus, active).contains((source, bus)) == active,
        other != (source, bus) ==> routed(m, source, bus, active).contains(other) == m.contains(
            other,
        ),
{
}

/// Taking one item out of a sequence without duplicates takes it out of the set.
proof fn lemma_remove_to_set<A>(s: Seq<A>, i: int)
    requires
        s.no_duplicates(),
        0 <= i < s.len(),
    ensures
        s.remove(i).no_duplicates(),
        s.remove(i).to_set() == s.to_set().remove(s[i]),
{
    let t = s.remove(i);
    assert forall|x: A| t.to_set().contains(x) <==> s.to_set().remove(s[i]).contains(x) by {
        if t.contains(x) {
            let j = choose|j: int| 0 <= j < t.len() && t[j] == x;
            if j < i {
                assert(s[j] == x);
            } else {
                assert(s[j + 1] == x);
            }
        }
        if s.contains(x) && x != s[i] {
            let j = choose|j: int| 0 <= j < s.len() && s[j] == x;
            if j < i {
                assert(t[j] == x);
            } else {
                assert(t[j - 1] == x);
            }
        }
    }
    assert(t.to_set() =~= s.to_set().remove(s[i]));
}

} // verus!
