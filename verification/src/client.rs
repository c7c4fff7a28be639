//! Clients (managed top-level windows) and the registry that tracks them.

use vstd::prelude::*;

verus! {

/// A symbolic label naming a virtual desktop; equality is by value.
/// The set of labels is meant to grow as desktops are given meaning.
#[derive(Debug, PartialEq, Eq, Clone, Copy, Structural)]
pub enum Tag {
    Foo,
    Bar,
}

/// One top-level window under management.
///
/// The window identifier is the stable key: the server never reuses it
/// while the client lives. The window type is an atom resolved once at
/// adoption; the tag set says on which virtual desktops the client is
/// visible.
#[derive(Debug)]
pub struct Client {
    pub window: u32,
    pub urgent: bool,
    pub w_type: u32,
    pub tags: Vec<Tag>,
}

impl Client {
    /// True when the client carries at least one tag of the query.
    pub open spec fn spec_has_tags(self, query: Seq<Tag>) -> bool {
        exists|i: int| 0 <= i < query.len() && self.tags@.contains(query[i])
    }

    /// Adopt a window as a client. The caller hands in the window's type
    /// property as the server reported it; when the property could not be
    /// read the window stays unmanaged and no client is produced.
    pub fn new(window: u32, w_type: Option<u32>, tags: Vec<Tag>) -> (r: Option<Client>)
        ensures
            match w_type {
                Some(t) => {
                    &&& r matches Some(c)
                    &&& c.window == window
                    &&& c.urgent == false
                    &&& c.w_type == t
                    &&& c.tags == tags
                },
                None => r is None,
            },
    {
        match w_type {
            Some(t) => Some(Client { window, urgent: false, w_type: t, tags }),
            None => None,
        }
    }

    /// Does this client carry one of the given tags?
    pub fn has_tags(&self, tags: &[Tag]) -> (r: bool)
        ensures
            r == self.spec_has_tags(tags@),
    {
        let mut i: usize = 0;
        while i < tags.len()
            invariant
                0 <= i <= tags@.len(),
                forall|j: int| 0 <= j < i ==> !self.tags@.contains(tags@[j]),
            decreases tags@.len() - i,
        {
            if self.contains_tag(tags[i]) {
                return true;
            }
            i += 1;
        }
        false
    }

    /// Is a single tag among this client's tags?
    pub fn contains_tag(&self, tag: Tag) -> (r: bool)
        ensures
            r == self.tags@.contains(tag),
    {
        let mut i: usize = 0;
        while i < self.tags.len()
            invariant
                0 <= i <= self.tags@.len(),
                forall|j: int| 0 <= j < i ==> self.tags@[j] != tag,
            decreases self.tags@.len() - i,
        {
            if self.tags[i] == tag {
                return true;
            }
            i += 1;
        }
        false
    }

    /// Replace the client's tag membership wholesale (a move between
    /// virtual desktops).
    pub fn set_tags(&mut self, tags: &[Tag])
        ensures
            final(self).tags@ == tags@,
            final(self).window == old(self).window,
            final(self).urgent == old(self).urgent,
            final(self).w_type == old(self).w_type,
    {
        let mut fresh: Vec<Tag> = Vec::new();
        let mut i: usize = 0;
        while i < tags.len()
            invariant
                0 <= i <= tags@.len(),
                fresh@ == tags@.subrange(0, i as int),
            decreases tags@.len() - i,
        {
            fresh.push(tags[i]);
            proof {
                assert(fresh@ =~= tags@.subrange(0, i + 1 as int));
            }
            i += 1;
        }
        proof {
            assert(fresh@ =~= tags@);
        }
        self.tags = fresh;
    }

    /// Reserved extension point: adding or removing a single tag is not
    /// yet specified, so the call leaves the client unchanged.
    pub fn toggle_tag(&mut self, tag: Tag)
        ensures
            *final(self) == *old(self),
    {
    }
}

/// True when some client in the sequence owns the given window.
pub open spec fn contains_window(s: Seq<Client>, window: u32) -> bool {
    exists|i: int| 0 <= i < s.len() && s[i].window == window
}

/// The clients of a sequence that are visible on at least one tag of the
/// query, in their original order.
pub open spec fn matching_clients(s: Seq<Client>, query: Seq<Tag>) -> Seq<Client> {
    s.filter(|c: Client| c.spec_has_tags(query))
}

/// The clients a sequence of references points at, in order.
pub open spec fn referenced_clients(s: Seq<&Client>) -> Seq<Client> {
    s.map_values(|c: &Client| *c)
}

/// How a registry changes when the client of a window is evicted: the
/// first record carrying the window leaves and every other record keeps
/// its place; when the window is absent the registry is unchanged.
pub open spec fn evict_rel(pre: Seq<Client>, post: Seq<Client>, window: u32) -> bool {
    &&& (!contains_window(pre, window) ==> post == pre)
    &&& (contains_window(pre, window) ==> exists|i: int|
            #![trigger pre.remove(i)]
            0 <= i < pre.len() && pre[i].window == window
            && (forall|j: int| 0 <= j < i ==> pre[j].window != window)
            && post == pre.remove(i))
}

/// The registry of all clients: an insertion-ordered list in which every
/// window identifier occurs at most once.
pub struct ClientList {
    clients: Vec<Client>,
}

impl View for ClientList {
    type V = Seq<Client>;

    closed spec fn view(&self) -> Seq<Client> {
        self.clients@
    }
}

impl ClientList {
    /// Window identifiers are unique within the registry.
    pub open spec fn wf(self) -> bool {
        forall|i: int, j: int|
            #![trigger self@[i].window, self@[j].window]
            0 <= i < j < self@.len() ==> self@[i].window != self@[j].window
    }

    /// An empty registry.
    pub fn new() -> (r: ClientList)
        ensures
            r@ == Seq::<Client>::empty(),
            r.wf(),
    {
        ClientList { clients: Vec::new() }
    }

    /// How many clients are tracked.
    pub fn len(&self) -> (n: usize)
        ensures
            n == self@.len(),
    {
        self.clients.len()
    }

    /// The clients visible on at least one tag of the query, in
    /// insertion order.
    pub fn match_clients_by_tags<'a>(&'a self, tags: &[Tag]) -> (r: Vec<&'a Client>)
        ensures
            referenced_clients(r@) == matching_clients(self@, tags@),
    {
        let mut r: Vec<&'a Client> = Vec::new();
        let mut i: usize = 0;
        while i < self.clients.len()
            invariant
                0 <= i <= self@.len(),
                referenced_clients(r@) == matching_clients(self@.take(i as int), tags@),
            decreases self@.len() - i,
        {
            let c = &self.clients[i];
            let ghost prev = r@;
            if c.has_tags(tags) {
                r.push(c);
            }
            proof {
                reveal_with_fuel(Seq::<_>::filter, 2);
                let s0 = self@.take(i as int);
                let s1 = self@.take(i as int + 1);
                assert(s1.drop_last() =~= s0);
                assert(s1.last() == self@[i as int]);
                assert(matching_clients(s1, tags@) == (if self@[i as int].spec_has_tags(tags@) {
                    matching_clients(s0, tags@).push(self@[i as int])
                } else {
                    matching_clients(s0, tags@)
                }));
                if self@[i as int].spec_has_tags(tags@) {
                    assert(referenced_clients(r@)
                        =~= referenced_clients(prev).push(self@[i as int]));
                } else {
                    assert(r@ == prev);
                }
                assert(referenced_clients(r@) == matching_clients(s1, tags@));
            }
            i += 1;
        }
        proof {
            assert(self@.take(self@.len() as int) =~= self@);
        }
        r
    }

    /// The client owning a window, if tracked: the first record with the
    /// window (under `wf`, the only one).
    pub fn get_client_by_window(&self, window: u32) -> (r: Option<&Client>)
        ensures
            match r {
                Some(c) => exists|i: int|
                    0 <= i < self@.len() && *c == self@[i] && self@[i].window == window
                    && (forall|j: int| 0 <= j < i ==> self@[j].window != window),
                None => !contains_window(self@, window),
            },
    {
        let mut i: usize = 0;
        while i < self.clients.len()
            invariant
                0 <= i <= self@.len(),
                forall|j: int| 0 <= j < i ==> self@[j].window != window,
            decreases self@.len() - i,
        {
            if self.clients[i].window == window {
                return Some(&self.clients[i]);
            }
            i += 1;
        }
        None
    }

    /// Insert a newly adopted client. A window already tracked is left
    /// alone, so the registry never holds two clients with the same
    /// window identifier.
    pub fn add(&mut self, client: Client)
        requires
            old(self).wf(),
        ensures
            final(self).wf(),
            !contains_window(old(self)@, client.window)
                ==> final(self)@ == old(self)@.push(client),
            contains_window(old(self)@, client.window) ==> final(self)@ == old(self)@,
            contains_window(final(self)@, client.window),
    {
        let absent = self.get_client_by_window(client.window).is_none();
        if absent {
            let ghost pre = self@;
            let ghost w = client.window;
            self.clients.push(client);
            proof {
                assert(contains_window(self@, w)) by {
                    assert(self@[pre.len() as int].window == w);
                }
                assert forall|i: int, j: int|
                    #![trigger self@[i].window, self@[j].window]
                    0 <= i < j < self@.len() implies self@[i].window != self@[j].window by {
                    if j < pre.len() {
                        assert(pre[i].window != pre[j].window);
                    } else {
                        assert(self@[j] == client);
                        assert(!contains_window(pre, w));
                        assert(pre[i].window != w);
                    }
                }
            }
        }
    }

    /// The registry invariant spelled out: under `wf` — which `new`
    /// establishes and every insertion and eviction preserves — a window
    /// identifier pins at most one record.
    pub proof fn lemma_unique_window(self, i: int, j: int)
        requires
            self.wf(),
            0 <= i < self@.len(),
            0 <= j < self@.len(),
            self@[i].window == self@[j].window,
        ensures
            i == j,
    {
    }

    /// Evict the client of a window. An absent window is a no-op, not an
    /// error: eviction can race with other removal paths.
    pub fn remove(&mut self, window: u32)
        requires
            old(self).wf(),
        ensures
            final(self).wf(),
            evict_rel(old(self)@, final(self)@, window),
            !contains_window(final(self)@, window),
    {
        let ghost pre = self@;
        let mut i: usize = 0;
        while i < self.clients.len()
            invariant
                0 <= i <= self@.len(),
                self@ == pre,
                pre == old(self)@,
                forall|i0: int, j0: int|
                    #![trigger pre[i0].window, pre[j0].window]
                    0 <= i0 < j0 < pre.len() ==> pre[i0].window != pre[j0].window,
                forall|j: int| 0 <= j < i ==> self@[j].window != window,
            decreases self@.len() - i,
        {
            if self.clients[i].window == window {
                self.clients.remove(i);
                proof {
                    let ii = i as int;
                    let post = self@;
                    assert(post == pre.remove(ii));
                    assert(contains_window(pre, window)) by {
                        assert(pre[ii].window == window);
                    }
                    assert forall|k: int| #![trigger post[k]] 0 <= k < post.len()
                        implies post[k] == (if k < ii { pre[k] } else { pre[k + 1] }) by {
                        if k < ii {
                            assert(post[k] == pre.subrange(0, ii)[k]);
                        } else {
                            assert(post[k] == pre.subrange(ii + 1, pre.len() as int)[k - ii]);
                        }
                    }
                    assert forall|a: int, b: int|
                        #![trigger post[a].window, post[b].window]
                        0 <= a < b < post.len() implies post[a].window != post[b].window by {
                        let a0: int = if a < ii { a } else { a + 1 };
                        let b0: int = if b < ii { b } else { b + 1 };
                        assert(post[a] == pre[a0]);
                        assert(post[b] == pre[b0]);
                        assert(pre[a0].window != pre[b0].window);
                    }
                    assert forall|k: int| 0 <= k < post.len()
                        implies #[trigger] post[k].window != window by {
                        let k0: int = if k < ii { k } else { k + 1 };
                        assert(post[k] == pre[k0]);
                        if k0 > ii {
                            assert(pre[ii].window != pre[k0].window);
                        }
                    }
                    assert(0 <= ii < pre.len() && pre[ii].window == window
                        && (forall|j: int| 0 <= j < ii ==> pre[j].window != window)
                        && post == pre.remove(ii));
                    assert(evict_rel(pre, post, window));
                }
                return;
            }
            i += 1;
        }
        proof {
            assert(!contains_window(pre, window));
        }
    }
}

} // verus!
