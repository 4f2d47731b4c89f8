//! The table of currently-connected proxies.
//!
//! The simulation process inserts a proxy when its connection is
//! established and removes it when the connection is torn down; a proxy id
//! is never reused while its connection is live, so the table never holds
//! the same id twice. Flush reads the table to learn which proxies exist;
//! a proxy absent at flush time simply receives nothing.

use vstd::prelude::*;

use crate::identity::ProxyId;

verus! {

/// The set of proxies currently connected to the simulation process, in
/// connection order.
#[derive(Clone, Debug)]
pub struct ProxyTable {
    proxies: Vec<ProxyId>,
}

impl View for ProxyTable {
    type V = Seq<ProxyId>;

    closed spec fn view(&self) -> Seq<ProxyId> {
        self.proxies@
    }
}

impl ProxyTable {
    /// No proxy id occurs twice: ids are unique among live connections.
    pub closed spec fn wf(&self) -> bool {
        forall|i: int, j: int|
            0 <= i < j < self.proxies@.len() ==> self.proxies@[i] != self.proxies@[j]
    }

    /// Creates an empty table.
    pub fn new() -> (r: Self)
        ensures
            r@ == Seq::<ProxyId>::empty(),
            r.wf(),
    {
        Self { proxies: Vec::new() }
    }

    /// The number of connected proxies.
    pub fn len(&self) -> (r: usize)
        ensures
            r == self@.len(),
    {
        self.proxies.len()
    }

    /// The proxy at one position of the table.
    pub fn get(&self, i: usize) -> (r: ProxyId)
        requires
            i < self@.len(),
        ensures
            r == self@[i as int],
    {
        self.proxies[i]
    }

    /// Whether a proxy is currently connected.
    pub fn contains(&self, proxy: ProxyId) -> (r: bool)
        ensures
            r == self@.contains(proxy),
    {
        let mut i: usize = 0;
        while i < self.proxies.len()
            invariant
                i <= self.proxies@.len(),
                forall|k: int| 0 <= k < i ==> self.proxies@[k] != proxy,
            decreases self.proxies@.len() - i,
        {
            if self.proxies[i] == proxy {
                assert(self@[i as int] == proxy);
                return true;
            }
            i = i + 1;
        }
        false
    }

    /// Records a newly-connected proxy. Connecting an id that is already
    /// present leaves the table unchanged, keeping ids unique.
    pub fn connect(&mut self, proxy: ProxyId)
        requires
            old(self).wf(),
        ensures
            final(self).wf(),
            final(self)@ == if old(self)@.contains(proxy) {
                old(self)@
            } else {
                old(self)@.push(proxy)
            },
    {
        if !self.contains(proxy) {
            self.proxies.push(proxy);
        }
    }

    /// Removes a proxy whose connection was torn down. Disconnecting an
    /// absent id leaves the table unchanged.
    pub fn disconnect(&mut self, proxy: ProxyId)
        requires
            old(self).wf(),
        ensures
            final(self).wf(),
            final(self)@ == if old(self)@.contains(proxy) {
                old(self)@.remove(old(self)@.index_of(proxy))
            } else {
                old(self)@
            },
            !final(self)@.contains(proxy),
    {
        let ghost prior = self.proxies@;
        let mut i: usize = 0;
        while i < self.proxies.len()
            invariant
                i <= self.proxies@.len(),
                self.proxies@ == prior,
                prior == old(self)@,
                forall|a: int, b: int| 0 <= a < b < prior.len() ==> prior[a] != prior[b],
                forall|k: int| 0 <= k < i ==> self.proxies@[k] != proxy,
            decreases self.proxies@.len() - i,
        {
            if self.proxies[i] == proxy {
                assert(prior[i as int] == proxy);
                proof {
                    assert forall|m: int| 0 <= m < prior.len() && m != i implies #[trigger] prior[m]
                        != proxy by {
                        if m < i {
                            assert(prior[m] != prior[i as int]);
                        } else {
                            assert(prior[i as int] != prior[m]);
                        }
                    }
                    assert(exists|j: int| 0 <= j < prior.len() && prior[j] == proxy);
                    let k = prior.index_of(proxy);
                    assert(0 <= k < prior.len() && prior[k] == proxy);
                    assert(k == i);
                }
                self.proxies.remove(i);
                proof {
                    prior.remove_ensures(i as int);
                    let cleaned = prior.remove(i as int);
                    assert forall|k: int| 0 <= k < cleaned.len() implies #[trigger] cleaned[k]
                        != proxy by {
                        if k < i {
                            assert(cleaned[k] == prior[k]);
                        } else {
                            assert(cleaned[k] == prior[k + 1]);
                        }
                    }
                    assert forall|a: int, b: int|
                        0 <= a < b < cleaned.len() implies cleaned[a] != cleaned[b] by {
                        let a0: int = if a < i {
                            a
                        } else {
                            a + 1
                        };
                        let b0: int = if b < i {
                            b
                        } else {
                            b + 1
                        };
                        assert(cleaned[a] == prior[a0]);
                        assert(cleaned[b] == prior[b0]);
                    }
                }
                return ;
            }
            i = i + 1;
        }
        proof {
            if prior.contains(proxy) {
                let w = prior.index_of(proxy);
                assert(0 <= w < prior.len() && prior[w] == proxy);
            }
        }
    }
}

} // verus!
