//! The command frames that a handshake and a heartbeat exchange.

use vstd::prelude::*;

use crate::text::same_text;

verus! {

/// The properties of a READY command: values by name.
#[derive(Debug)]
pub struct Properties {
    entries: Vec<(String, Vec<u8>)>,
}

/// Whether `entries` holds a value by this name at this place.
spec fn names(entries: Seq<(String, Vec<u8>)>, i: int, name: Seq<char>) -> bool {
    0 <= i < entries.len() && entries[i].0@ == name
}

/// Where the value by this name stands.
spec fn place(entries: Seq<(String, Vec<u8>)>, name: Seq<char>) -> int {
    choose|i: int| names(entries, i, name)
}

/// Whether no name occurs twice.
spec fn distinct_names(entries: Seq<(String, Vec<u8>)>) -> bool {
    forall|i: int, j: int| 0 <= i < j < entries.len() ==> entries[i].0@ != entries[j].0@
}

/// The values by their names.
spec fn by_name(entries: Seq<(String, Vec<u8>)>) -> Map<Seq<char>, Seq<u8>> {
    Map::new(
        |name: Seq<char>| exists|i: int| names(entries, i, name),
        |name: Seq<char>| entries[place(entries, name)].1@,
    )
}

proof fn lemma_by_name(entries: Seq<(String, Vec<u8>)>, at: int)
    requires
        distinct_names(entries),
        0 <= at < entries.len(),
    ensures
        by_name(entries).contains_key(entries[at].0@),
        by_name(entries)[entries[at].0@] == entries[at].1@,
{
    let name = entries[at].0@;
    assert(names(entries, at, name));
    assert(names(entries, place(entries, name), name));
}

/// Putting an entry where its name stood, or at the end where it stood nowhere,
/// sets the value by its name.
proof fn lemma_insert(
    before: Seq<(String, Vec<u8>)>,
    after: Seq<(String, Vec<u8>)>,
    at: int,
    entry: (String, Vec<u8>),
)
    requires
        distinct_names(before),
        0 <= at <= before.len(),
        at < before.len() ==> before[at].0@ == entry.0@ && after == before.update(at, entry),
        at == before.len() ==> after == before.push(entry) && forall|i: int|
            !names(before, i, entry.0@),
    ensures
        distinct_names(after),
        by_name(after) == by_name(before).insert(entry.0@, entry.1@),
{
    let name = entry.0@;
    assert forall|i: int, j: int| 0 <= i < j < after.len() implies after[i].0@ != after[j].0@ by {
        assert(!names(before, i, name) || at < before.len());
        assert(!names(before, j, name) || at < before.len());
    }
    lemma_by_name(after, at);
    let expected = by_name(before).insert(name, entry.1@);
    assert forall|other: Seq<char>| #[trigger]
        by_name(after).dom().contains(other) == expected.dom().contains(other) by {
        if other != name {
            if by_name(after).contains_key(other) {
                assert(names(before, choose|i: int| names(after, i, other), other));
            }
            if by_name(before).contains_key(other) {
                assert(names(after, choose|i: int| names(before, i, other), other));
            }
        }
    }
    assert forall|other: Seq<char>| by_name(after).dom().contains(other) implies #[trigger]
        by_name(after)[other] == expected[other] by {
        if other != name {
            let i = choose|i: int| names(after, i, other);
            lemma_by_name(after, i);
            lemma_by_name(before, i);
        }
    }
    assert(by_name(after) =~= expected);
}

impl View for Properties {
    type V = Map<Seq<char>, Seq<u8>>;

    closed spec fn view(&self) -> Map<Seq<char>, Seq<u8>> {
        by_name(self.entries@)
    }
}

impl Properties {
    /// No name occurs twice.
    #[verifier::type_invariant]
    spec fn distinct(self) -> bool {
        distinct_names(self.entries@)
    }

    /// No properties.
    pub fn new() -> (properties: Properties)
        ensures
            properties@ == Map::<Seq<char>, Seq<u8>>::empty(),
    {
        let properties = Properties { entries: Vec::new() };
        assert(properties@ =~= Map::<Seq<char>, Seq<u8>>::empty());
        properties
    }

    fn position(&self, name: &str) -> (at: Option<usize>)
        ensures
            match at {
                Some(at) => names(self.entries@, at as int, name@),
                None => forall|i: int| !names(self.entries@, i, name@),
            },
    {
        let mut i: usize = 0;
        while i < self.entries.len()
            invariant
                0 <= i <= self.entries@.len(),
                forall|k: int| 0 <= k < i ==> self.entries@[k].0@ != name@,
            decreases self.entries@.len() - i,
        {
            if same_text(self.entries[i].0.as_str(), name) {
                return Some(i);
            }
            i = i + 1;
        }
        None
    }

    /// Sets the value by this name.
    pub fn insert(&mut self, name: &str, value: Vec<u8>)
        ensures
            final(self)@ == old(self)@.insert(name@, value@),
    {
        proof {
            use_type_invariant(&*self);
        }
        let ghost before = self.entries@;
        let at = self.position(name);
        let mut entries: Vec<(String, Vec<u8>)> = Vec::new();
        std::mem::swap(&mut entries, &mut self.entries);
        let entry = (name.to_string(), value);
        let ghost place = if at is Some {
            at->0 as int
        } else {
            before.len() as int
        };
        match at {
            Some(i) => {
                entries.set(i, entry);
            },
            None => {
                entries.push(entry);
            },
        }
        proof {
            lemma_insert(before, entries@, place, entry);
        }
        self.entries = entries;
    }

    /// The value by this name, where there is one.
    pub fn get(&self, name: &str) -> (value: Option<&Vec<u8>>)
        ensures
            match value {
                Some(value) => self@.contains_key(name@) && value@ == self@[name@],
                None => !self@.contains_key(name@),
            },
    {
        proof {
            use_type_invariant(&*self);
        }
        match self.position(name) {
            Some(at) => {
                proof {
                    lemma_by_name(self.entries@, at as int);
                }
                Some(&self.entries[at].1)
            },
            None => None,
        }
    }

    /// The properties one after the other.
    pub closed spec fn listed(&self) -> Seq<(Seq<char>, Seq<u8>)> {
        Seq::new(self.entries@.len(), |i: int| (self.entries@[i].0@, self.entries@[i].1@))
    }

    /// How many properties there are.  Each stands in the list once, and no other does.
    pub fn len(&self) -> (n: usize)
        ensures
            n == self.listed().len(),
            forall|i: int, j: int|
                0 <= i < j < n ==> (#[trigger] self.listed()[i]).0 != (
                #[trigger] self.listed()[j]).0,
            forall|i: int|
                0 <= i < n ==> self@.contains_key((#[trigger] self.listed()[i]).0)
                    && self@[self.listed()[i].0] == self.listed()[i].1,
            forall|name: Seq<char>| #[trigger]
                self@.contains_key(name) ==> exists|i: int|
                    0 <= i < n && (#[trigger] self.listed()[i]).0 == name,
    {
        proof {
            use_type_invariant(&*self);
            assert forall|i: int| 0 <= i < self.listed().len() implies self@.contains_key(
                (#[trigger] self.listed()[i]).0,
            ) && self@[self.listed()[i].0] == self.listed()[i].1 by {
                lemma_by_name(self.entries@, i);
            }
            assert forall|name: Seq<char>| #[trigger] self@.contains_key(name) implies exists|
                i: int,
            |
                0 <= i < self.listed().len() && (#[trigger] self.listed()[i]).0 == name by {
                let i = choose|i: int| names(self.entries@, i, name);
                assert(self.listed()[i].0 == name);
            }
        }
        self.entries.len()
    }

    /// The property at this place of the list.
    pub fn entry(&self, at: usize) -> (entry: (&str, &[u8]))
        requires
            at < self.listed().len(),
        ensures
            (entry.0@, entry.1@) == self.listed()[at as int],
    {
        (self.entries[at].0.as_str(), self.entries[at].1.as_slice())
    }
}

/// What a READY command carries.
#[derive(Debug)]
pub struct ZmtpReady {
    pub properties: Properties,
}

/// A command frame that was parsed.
#[derive(Debug)]
pub enum ZmtpCommand {
    Ready(ZmtpReady),
    /// A PING with its context.
    Ping(Vec<u8>),
    /// A PONG with its context.
    Pong(Vec<u8>),
    Error,
    /// Any other command.
    Other,
}

/// A command with its properties as a map and its context as a sequence.
#[verifier::ext_equal]
pub enum CommandView {
    Ready(Map<Seq<char>, Seq<u8>>),
    Ping(Seq<u8>),
    Pong(Seq<u8>),
    Error,
    Other,
}

impl View for ZmtpCommand {
    type V = CommandView;

    open spec fn view(&self) -> CommandView {
        match *self {
            ZmtpCommand::Ready(ready) => CommandView::Ready(ready.properties@),
            ZmtpCommand::Ping(context) => CommandView::Ping(context@),
            ZmtpCommand::Pong(context) => CommandView::Pong(context@),
            ZmtpCommand::Error => CommandView::Error,
            ZmtpCommand::Other => CommandView::Other,
        }
    }
}

} // verus!
