//! The handler registry: the callbacks of the application, by name.
//!
//! Method and event names are not fixed by the protocol: the application
//! registers them while it runs. The registry is a table from names to
//! handlers; what a handler is, and how it is called, is the application's
//! business.
use crate::json::same_text;
use vstd::prelude::*;

verus! {

/// A table from names to handlers, in the order of registration.
pub struct HandlerTable<H> {
    names: Vec<String>,
    handlers: Vec<H>,
}

/// The names of a vector of strings.
pub open spec fn names_of(v: Seq<String>) -> Seq<Seq<char>> {
    v.map_values(|s: String| s@)
}

impl<H> HandlerTable<H> {
    #[verifier::type_invariant]
    spec fn inv(self) -> bool {
        &&& self.names.len() == self.handlers.len()
        &&& names_of(self.names@).no_duplicates()
    }

    /// The registered names, in the order of registration.
    pub closed spec fn names(self) -> Seq<Seq<char>> {
        names_of(self.names@)
    }

    /// The handlers, each at the position of its name.
    pub closed spec fn handlers(self) -> Seq<H> {
        self.handlers@
    }

    /// Whether a handler is registered under the name.
    pub open spec fn has(self, name: Seq<char>) -> bool {
        self.names().contains(name)
    }

    /// The handler registered under the name.
    pub open spec fn handler(self, name: Seq<char>) -> H
        recommends
            self.has(name),
    {
        self.handlers()[self.names().index_of(name)]
    }

    /// The set of registered names.
    pub open spec fn name_set(self) -> Set<Seq<char>> {
        Set::new(|name: Seq<char>| self.has(name))
    }

    /// A table without handlers.
    pub fn new() -> (t: HandlerTable<H>)
        ensures
            t.names() == Seq::<Seq<char>>::empty(),
            t.handlers() == Seq::<H>::empty(),
    {
        let t = HandlerTable { names: Vec::new(), handlers: Vec::new() };
        assert(names_of(t.names@) =~= Seq::<Seq<char>>::empty());
        t
    }

    /// The position of a name in the table.
    fn position(&self, name: &str) -> (r: Option<usize>)
        ensures
            r is Some == self.has(name@),
            r matches Some(i) ==> i < self.names().len() && self.names()[i as int] == name@
                && self.names().index_of(name@) == i && i < self.handlers().len(),
    {
        proof {
            use_type_invariant(self);
        }
        let mut i: usize = 0;
        while i < self.names.len()
            invariant
                i <= self.names.len(),
                self.names.len() == self.handlers.len(),
                names_of(self.names@).no_duplicates(),
                forall|k: int| 0 <= k < i ==> self.names()[k] != name@,
            decreases self.names.len() - i,
        {
            if same_text(self.names[i].as_str(), name) {
                proof {
                    assert(self.names()[i as int] == name@);
                    let j = self.names().index_of(name@);
                    assert(self.names().contains(name@));
                    assert(0 <= j < self.names().len() && self.names()[j] == name@);
                }
                return Some(i);
            }
            i = i + 1;
        }
        None
    }

    /// Whether a handler is registered under the name.
    pub fn contains(&self, name: &str) -> (r: bool)
        ensures
            r == self.has(name@),
    {
        self.position(name).is_some()
    }

    /// The handler registered under the name, if there is one.
    pub fn lookup(&self, name: &str) -> (r: Option<&H>)
        ensures
            r is Some == self.has(name@),
            r matches Some(h) ==> *h == self.handler(name@),
    {
        match self.position(name) {
            Some(i) => Some(&self.handlers[i]),
            None => None,
        }
    }

    /// The number of registered handlers.
    pub fn len(&self) -> (n: usize)
        ensures
            n == self.names().len(),
    {
        self.names.len()
    }

    /// Registers a handler under a name. A handler that stood under the name
    /// before is replaced, in its place, and returned.
    pub fn register(&mut self, name: String, handler: H) -> (replaced: Option<H>)
        ensures
            final(self).has(name@),
            final(self).handler(name@) == handler,
            forall|other: Seq<char>|
                other != name@ ==> (final(self).has(other) == old(self).has(other)),
            forall|other: Seq<char>|
                other != name@ && old(self).has(other) ==> final(self).handler(other) == old(self).handler(other),
            replaced is Some == old(self).has(name@),
            replaced matches Some(h) ==> h == old(self).handler(name@),
            if old(self).has(name@) {
                final(self).names() == old(self).names()
            } else {
                final(self).names() == old(self).names().push(name@)
            },
    {
        proof {
            use_type_invariant(&*self);
        }
        let ghost before = *self;
        let found = self.position(name.as_str());
        let mut taken = HandlerTable::new();
        std::mem::swap(self, &mut taken);
        let HandlerTable { mut names, mut handlers } = taken;
        let replaced = match found {
            Some(i) => {
                handlers.push(handler);
                let previous = handlers.swap_remove(i);
                Some(previous)
            },
            None => {
                names.push(name);
                handlers.push(handler);
                None
            },
        };
        proof {
            let n = names_of(names@);
            if found is Some {
                let i = found->0 as int;
                assert(n =~= before.names());
                assert(handlers@ =~= before.handlers().update(i, handler));
            } else {
                assert(n =~= before.names().push(name@));
                assert forall|a: int, b: int|
                    0 <= a < n.len() && 0 <= b < n.len() && a != b implies n[a] != n[b] by {
                    if a < before.names().len() && b < before.names().len() {
                    } else {
                        let c = if a < before.names().len() {
                            a
                        } else {
                            b
                        };
                        assert(before.names().contains(before.names()[c]));
                    }
                }
            }
        }
        *self = HandlerTable { names, handlers };
        proof {
            let n = self.names();
            let j = n.index_of(name@);
            if found is Some {
                let i = found->0 as int;
                assert(n[i] == name@);
                assert(n.contains(name@));
                assert(n[j] == name@);
            } else {
                assert(n[n.len() - 1] == name@);
                assert(n.contains(name@));
                assert(n[j] == name@);
            }
            assert forall|other: Seq<char>| other != name@ implies (self.has(other) == before.has(
                other,
            )) by {
                if before.has(other) {
                    let k = before.names().index_of(other);
                    assert(n[k] == other);
                }
                if self.has(other) {
                    let k = n.index_of(other);
                    assert(before.names()[k] == other);
                }
            }
            assert forall|other: Seq<char>| other != name@ && before.has(other) implies self.handler(
                other,
            ) == before.handler(other) by {
                let k = before.names().index_of(other);
                assert(n[k] == other);
                assert(n.contains(other));
                let k2 = n.index_of(other);
                assert(n[k2] == other);
            }
        }
        replaced
    }
}

/// The names that a registry answers to.
pub struct RegistryView {
    pub open: bool,
    pub requests: Set<Seq<char>>,
    pub events: Set<Seq<char>>,
    pub binary: bool,
}

/// The callbacks of one application: one for the opening of the session, one
/// per method, one per event name, one for binary frames.
pub struct Registry<H> {
    pub open: Option<H>,
    pub requests: HandlerTable<H>,
    pub events: HandlerTable<H>,
    pub binary: Option<H>,
}

impl<H> View for Registry<H> {
    type V = RegistryView;

    open spec fn view(&self) -> RegistryView {
        RegistryView {
            open: self.open is Some,
            requests: self.requests.name_set(),
            events: self.events.name_set(),
            binary: self.binary is Some,
        }
    }
}

impl<H> Registry<H> {
    /// A registry without handlers.
    pub fn new() -> (r: Registry<H>)
        ensures
            !r@.open,
            !r@.binary,
            forall|name: Seq<char>| !r@.requests.contains(name) && !r@.events.contains(name),
    {
        Registry {
            open: None,
            requests: HandlerTable::new(),
            events: HandlerTable::new(),
            binary: None,
        }
    }

    /// Sets the handler that runs once when the session has become active.
    pub fn with_open_handler(&mut self, handler: H)
        ensures
            final(self).open == Some(handler),
            final(self).requests == old(self).requests,
            final(self).events == old(self).events,
            final(self).binary == old(self).binary,
    {
        self.open = Some(handler);
    }

    /// Sets the handler of binary frames.
    pub fn register_data_handler(&mut self, handler: H)
        ensures
            final(self).binary == Some(handler),
            final(self).requests == old(self).requests,
            final(self).events == old(self).events,
            final(self).open == old(self).open,
    {
        self.binary = Some(handler);
    }

    /// Registers the handler of a method.
    pub fn register_request_handler(&mut self, method: String, handler: H)
        ensures
            final(self)@.requests == old(self)@.requests.insert(method@),
            final(self).requests.handler(method@) == handler,
            final(self).events == old(self).events,
            final(self).open == old(self).open,
            final(self).binary == old(self).binary,
    {
        let _ = self.requests.register(method, handler);
        assert(self@.requests =~= old(self)@.requests.insert(method@));
    }

    /// Registers the handler of an event name.
    pub fn register_event_handler(&mut self, name: String, handler: H)
        ensures
            final(self)@.events == old(self)@.events.insert(name@),
            final(self).events.handler(name@) == handler,
            final(self).requests == old(self).requests,
            final(self).open == old(self).open,
            final(self).binary == old(self).binary,
    {
        let _ = self.events.register(name, handler);
        assert(self@.events =~= old(self)@.events.insert(name@));
    }
}

} // verus!
