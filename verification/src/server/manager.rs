//! The catalog of the servers of a node.

use vstd::prelude::*;
use crate::keyed::{distinct, index_of, lemma_index_of, lemma_index_of_own, lemma_index_of_prefix, lemma_index_of_remove};
use crate::server::server::Server;

verus! {

/// The servers of a node, each under its id.
pub struct Manager {
    servers: Vec<Server>,
}

impl Manager {
    /// The ids of the servers, in catalog order.
    pub closed spec fn keys(&self) -> Seq<Seq<char>> {
        Seq::new(self.servers@.len(), |i: int| self.servers@[i].id())
    }

    /// No id stands twice in the catalog.
    pub closed spec fn wf(&self) -> bool {
        distinct(self.keys())
    }

    /// The number of servers.
    pub closed spec fn len(&self) -> nat {
        self.servers@.len()
    }

    /// The server with the given id.
    pub closed spec fn server(&self, uuid: Seq<char>) -> Option<Server> {
        match index_of(self.keys(), uuid) {
            Some(i) => Some(self.servers@[i]),
            None => None,
        }
    }

    /// An empty catalog.
    pub fn new() -> (m: Self)
        ensures
            m.wf(),
            m.len() == 0,
            forall|uuid: Seq<char>| m.server(uuid).is_none(),
    {
        let m = Manager { servers: Vec::new() };
        assert(m.keys() =~= Seq::<Seq<char>>::empty());
        m
    }

    fn find(&self, uuid: &str) -> (r: Option<usize>)
        ensures
            match r {
                Some(i) => index_of(self.keys(), uuid@) == Some(i as int) && i < self.servers@.len(),
                None => index_of(self.keys(), uuid@).is_none(),
            },
    {
        let mut i: usize = 0;
        let wanted: String = uuid.to_owned();
        let ghost keys = self.keys();
        assert(keys.subrange(0, 0) =~= Seq::<Seq<char>>::empty());
        while i < self.servers.len()
            invariant
                i <= self.servers@.len(),
                keys == self.keys(),
                keys.len() == self.servers@.len(),
                wanted@ == uuid@,
                index_of(keys.subrange(0, i as int), uuid@).is_none(),
            decreases self.servers@.len() - i,
        {
            proof {
                let next = keys.subrange(0, i + 1);
                assert(next.drop_last() =~= keys.subrange(0, i as int));
                assert(next.last() == self.servers@[i as int].id());
            }
            if *self.servers[i].uuid() == wanted {
                proof {
                    lemma_index_of_prefix(keys, i + 1, uuid@);
                }
                return Some(i);
            }
            i = i + 1;
        }
        assert(keys.subrange(0, keys.len() as int) =~= keys);
        None
    }

    /// Adds a server unless one with its id is in the catalog. Returns
    /// whether it was added.
    pub fn add(&mut self, server: Server) -> (added: bool)
        requires
            old(self).wf(),
        ensures
            final(self).wf(),
            added == old(self).server(server.id()).is_none(),
            added ==> final(self).server(server.id()) == Some(server) && final(self).len() == old(self).len() + 1,
            !added ==> final(self).server(server.id()) == old(self).server(server.id()) && final(self).len() == old(self).len(),
            forall|other: Seq<char>|
                other != server.id() ==> final(self).server(other) == old(self).server(other),
    {
        let ghost keys0 = self.keys();
        let found = self.find(server.uuid().as_str());
        match found {
            Some(_) => false,
            None => {
                self.servers.push(server);
                proof {
                    lemma_index_of(keys0, server.id());
                    assert(self.keys() =~= keys0.push(server.id()));
                    assert(self.keys().drop_last() =~= keys0);
                    assert forall|other: Seq<char>| other != server.id() implies self.server(other)
                        == old(self).server(other) by {
                        lemma_index_of(keys0, other);
                    }
                }
                true
            },
        }
    }

    /// The server with the given id.
    pub fn get(&self, uuid: &str) -> (r: Option<&Server>)
        ensures
            match r {
                Some(s) => self.server(uuid@) == Some(*s),
                None => self.server(uuid@).is_none(),
            },
    {
        match self.find(uuid) {
            Some(i) => Some(&self.servers[i]),
            None => None,
        }
    }

    /// Takes a server out of the catalog.
    pub fn remove(&mut self, uuid: &str) -> (r: Option<Server>)
        requires
            old(self).wf(),
        ensures
            final(self).wf(),
            r == old(self).server(uuid@),
            final(self).server(uuid@).is_none(),
            final(self).len() == if r.is_some() {
                (old(self).len() - 1) as nat
            } else {
                old(self).len()
            },
            forall|other: Seq<char>|
                other != uuid@ ==> final(self).server(other) == old(self).server(other),
    {
        let ghost keys0 = self.keys();
        match self.find(uuid) {
            Some(i) => {
                let server = self.servers.remove(i);
                proof {
                    assert(self.keys() =~= keys0.remove(i as int));
                    lemma_index_of(keys0, uuid@);
                    lemma_index_of_remove(keys0, i as int, uuid@);
                    assert forall|other: Seq<char>| other != uuid@ implies self.server(other) == old(self).server(other) by {
                        lemma_index_of_remove(keys0, i as int, other);
                        lemma_index_of(keys0, other);
                    }
                }
                Some(server)
            },
            None => None,
        }
    }

    /// The number of servers.
    pub fn count(&self) -> (n: usize)
        ensures
            n == self.len(),
    {
        self.servers.len()
    }

    /// Every server, in catalog order.
    pub fn all(&self) -> (r: &Vec<Server>)
        requires
            self.wf(),
        ensures
            r@.len() == self.len(),
            forall|i: int| 0 <= i < r@.len() ==> self.server((#[trigger] r@[i]).id()) == Some(r@[i]),
    {
        proof {
            let keys = self.keys();
            assert forall|i: int| 0 <= i < self.servers@.len() implies self.server(
                (#[trigger] self.servers@[i]).id(),
            ) == Some(self.servers@[i]) by {
                lemma_index_of_own(keys, i);
            }
        }
        &self.servers
    }
}

} // verus!
