//! The registry of registered workspaces and of the clients connected to each.
//!
//! A registry is a list of workspaces in the order in which they were
//! registered; no root occurs twice in it. A workspace lists its clients in
//! the order in which they connected; no client occurs twice in it.

use crate::text::same_text;
use vstd::prelude::*;

verus! {

/// Identifies a connected client within a workspace.
pub type ClientId = i32;

/// `i` is the first place at which `x` stands in `s`.
pub open spec fn first_at<T>(s: Seq<T>, x: T, i: int) -> bool {
    &&& 0 <= i < s.len()
    &&& s[i] == x
    &&& forall|j: int| 0 <= j < i ==> s[j] != x
}

/// The first place at which `x` stands in `s`, or the length of `s` where it
/// does not occur.
pub open spec fn position<T>(s: Seq<T>, x: T) -> int {
    if exists|i: int| first_at(s, x, i) {
        choose|i: int| first_at(s, x, i)
    } else {
        s.len() as int
    }
}

/// An element that occurs in a sequence has a first place in it.
pub proof fn lemma_first_place<T>(s: Seq<T>, x: T)
    requires
        s.contains(x),
    ensures
        first_at(s, x, position(s, x)),
    decreases s.len(),
{
    let k = choose|k: int| 0 <= k < s.len() && s[k] == x;
    if exists|j: int| 0 <= j < k && s[j] == x {
        let j = choose|j: int| 0 <= j < k && s[j] == x;
        let front = s.subrange(0, k);
        assert(front[j] == x);
        lemma_first_place(front, x);
        let i = position(front, x);
        assert(first_at(s, x, i)) by {
            assert(s[i] == front[i]);
            assert forall|m: int| 0 <= m < i implies s[m] != x by {
                assert(s[m] == front[m]);
            }
        }
    } else {
        assert(first_at(s, x, k));
    }
}

/// A first place is the position.
pub proof fn lemma_position_is_first<T>(s: Seq<T>, x: T, i: int)
    requires
        first_at(s, x, i),
    ensures
        position(s, x) == i,
{
    let p = position(s, x);
    assert(first_at(s, x, p));
    if p < i {
        assert(s[p] != x);
    } else if i < p {
        assert(s[i] != x);
    }
}

/// What the registry knows of one workspace.
pub struct Workspace {
    root: String,
    clients: Vec<ClientId>,
    ignore_patterns: Vec<String>,
}

/// A [`Workspace`] as plain values.
pub struct WorkspaceView {
    /// The absolute path that identifies the workspace.
    pub root: Seq<char>,
    /// The connected clients, in the order in which they connected.
    pub clients: Seq<ClientId>,
    /// The patterns that the workspace adds to the default ignore patterns.
    pub ignore_patterns: Seq<Seq<char>>,
}

impl WorkspaceView {
    /// No client is listed twice.
    pub open spec fn wf(self) -> bool {
        self.clients.no_duplicates()
    }

    /// The workspace with one more client at the end.
    pub open spec fn with_client(self, client: ClientId) -> WorkspaceView {
        WorkspaceView { clients: self.clients.push(client), ..self }
    }

    /// The workspace without the first mention of a client.
    pub open spec fn without_client(self, client: ClientId) -> WorkspaceView {
        if self.clients.contains(client) {
            WorkspaceView { clients: self.clients.remove(position(self.clients, client)), ..self }
        } else {
            self
        }
    }
}

impl View for Workspace {
    type V = WorkspaceView;

    closed spec fn view(&self) -> WorkspaceView {
        WorkspaceView {
            root: self.root@,
            clients: self.clients@,
            ignore_patterns: self.ignore_patterns.deep_view(),
        }
    }
}

impl Workspace {
    /// A workspace without clients.
    pub fn new(root: String, ignore_patterns: Vec<String>) -> (w: Workspace)
        ensures
            w@ == (WorkspaceView {
                root: root@,
                clients: Seq::empty(),
                ignore_patterns: ignore_patterns.deep_view(),
            }),
            w@.wf(),
    {
        Workspace { root, clients: Vec::new(), ignore_patterns }
    }

    /// The root of the workspace.
    pub fn root(&self) -> (r: &str)
        ensures
            r@ == self@.root,
    {
        self.root.as_str()
    }

    /// The connected clients, in the order in which they connected.
    pub fn clients(&self) -> (r: &Vec<ClientId>)
        ensures
            r@ == self@.clients,
    {
        &self.clients
    }

    /// The patterns that the workspace adds to the default ignore patterns.
    pub fn ignore_patterns(&self) -> (r: &Vec<String>)
        ensures
            r.deep_view() == self@.ignore_patterns,
    {
        &self.ignore_patterns
    }

    fn find_client(&self, client: ClientId) -> (r: Option<usize>)
        ensures
            match r {
                Some(i) => first_at(self@.clients, client, i as int),
                None => !self@.clients.contains(client),
            },
    {
        let mut i: usize = 0;
        while i < self.clients.len()
            invariant
                i <= self.clients.len(),
                forall|j: int| 0 <= j < i ==> self.clients[j] != client,
            decreases self.clients.len() - i,
        {
            if self.clients[i] == client {
                return Some(i);
            }
            i += 1;
        }
        None
    }

    /// Whether a client is connected.
    pub fn has_client(&self, client: ClientId) -> (r: bool)
        ensures
            r == self@.clients.contains(client),
    {
        self.find_client(client).is_some()
    }

    /// Connects a client. A client that is connected already stays where it
    /// is, and `false` is returned.
    pub fn connect(&mut self, client: ClientId) -> (r: bool)
        ensures
            r == !old(self)@.clients.contains(client),
            final(self)@ == if r {
                old(self)@.with_client(client)
            } else {
                old(self)@
            },
            old(self)@.wf() ==> final(self)@.wf(),
    {
        if self.has_client(client) {
            false
        } else {
            self.clients.push(client);
            true
        }
    }

    /// Disconnects a client. Where it was not connected nothing changes, and
    /// `false` is returned.
    pub fn disconnect(&mut self, client: ClientId) -> (r: bool)
        ensures
            r == old(self)@.clients.contains(client),
            final(self)@ == old(self)@.without_client(client),
            old(self)@.wf() ==> final(self)@.wf() && !final(self)@.clients.contains(client),
    {
        match self.find_client(client) {
            Some(i) => {
                proof {
                    lemma_position_is_first(self@.clients, client, i as int);
                }
                self.clients.remove(i);
                true
            },
            None => false,
        }
    }
}

/// The roots of a list of workspaces, in order.
pub open spec fn roots_of(workspaces: Seq<WorkspaceView>) -> Seq<Seq<char>> {
    Seq::new(workspaces.len(), |i: int| workspaces[i].root)
}

/// Whether a root is among those of a list of workspaces.
pub open spec fn registered(workspaces: Seq<WorkspaceView>, root: Seq<char>) -> bool {
    roots_of(workspaces).contains(root)
}

/// The place of a root in a list of workspaces, or the length of the list
/// where the root is not registered.
pub open spec fn slot(workspaces: Seq<WorkspaceView>, root: Seq<char>) -> int {
    position(roots_of(workspaces), root)
}

/// No root occurs twice, and no workspace lists a client twice.
pub open spec fn registry_wf(workspaces: Seq<WorkspaceView>) -> bool {
    &&& roots_of(workspaces).no_duplicates()
    &&& forall|i: int| 0 <= i < workspaces.len() ==> (#[trigger] workspaces[i]).wf()
}

/// The workspaces without the one of the given root.
pub open spec fn without_root(workspaces: Seq<WorkspaceView>, root: Seq<char>) -> Seq<
    WorkspaceView,
> {
    if registered(workspaces, root) {
        workspaces.remove(slot(workspaces, root))
    } else {
        workspaces
    }
}

/// A registered root stands at its slot, and at no place before it.
pub proof fn lemma_slot_of_registered(workspaces: Seq<WorkspaceView>, root: Seq<char>)
    requires
        registered(workspaces, root),
    ensures
        0 <= slot(workspaces, root) < workspaces.len(),
        workspaces[slot(workspaces, root)].root == root,
        forall|j: int| 0 <= j < slot(workspaces, root) ==> (#[trigger] workspaces[j]).root != root,
{
    lemma_first_place(roots_of(workspaces), root);
    assert forall|j: int| 0 <= j < slot(workspaces, root) implies (#[trigger] workspaces[j]).root
        != root by {
        assert(roots_of(workspaces)[j] != root);
    }
}

/// The process-wide list of registered workspaces.
pub struct WorkspaceRegistry {
    workspaces: Vec<Workspace>,
}

impl View for WorkspaceRegistry {
    type V = Seq<WorkspaceView>;

    closed spec fn view(&self) -> Seq<WorkspaceView> {
        Seq::new(self.workspaces@.len(), |i: int| self.workspaces@[i]@)
    }
}

impl Default for WorkspaceRegistry {
    fn default() -> (r: WorkspaceRegistry)
        ensures
            r@ == Seq::<WorkspaceView>::empty(),
    {
        WorkspaceRegistry::new()
    }
}

impl WorkspaceRegistry {
    /// A registry that holds nothing.
    pub fn new() -> (r: WorkspaceRegistry)
        ensures
            r@ == Seq::<WorkspaceView>::empty(),
            registry_wf(r@),
    {
        WorkspaceRegistry { workspaces: Vec::new() }
    }

    /// The number of registered workspaces.
    pub fn len(&self) -> (n: usize)
        ensures
            n == self@.len(),
    {
        self.workspaces.len()
    }

    fn find(&self, root: &str) -> (r: Option<usize>)
        ensures
            match r {
                Some(i) => first_at(roots_of(self@), root@, i as int) && i < self.workspaces.len()
                    && slot(self@, root@) == i,
                None => !registered(self@, root@),
            },
    {
        let mut i: usize = 0;
        while i < self.workspaces.len()
            invariant
                i <= self.workspaces.len(),
                forall|j: int| 0 <= j < i ==> roots_of(self@)[j] != root@,
            decreases self.workspaces.len() - i,
        {
            if same_text(self.workspaces[i].root(), root) {
                proof {
                    lemma_position_is_first(roots_of(self@), root@, i as int);
                }
                return Some(i);
            }
            i += 1;
        }
        None
    }

    /// Whether a root is registered.
    pub fn contains(&self, root: &str) -> (r: bool)
        ensures
            r == registered(self@, root@),
    {
        self.find(root).is_some()
    }

    /// The workspace of a root, if the root is registered.
    pub fn get(&self, root: &str) -> (r: Option<&Workspace>)
        ensures
            r is Some <==> registered(self@, root@),
            r matches Some(w) ==> w@ == self@[slot(self@, root@)] && w@.root == root@,
    {
        match self.find(root) {
            Some(i) => Some(&self.workspaces[i]),
            None => None,
        }
    }

    /// Registers a workspace, after those that are registered already.
    /// Where its root is registered already nothing changes, and `false` is
    /// returned.
    pub fn insert(&mut self, workspace: Workspace) -> (r: bool)
        ensures
            r == !registered(old(self)@, workspace@.root),
            final(self)@ == if r {
                old(self)@.push(workspace@)
            } else {
                old(self)@
            },
            registry_wf(old(self)@) && workspace@.wf() ==> registry_wf(final(self)@),
    {
        if self.contains(workspace.root()) {
            false
        } else {
            self.workspaces.push(workspace);
            assert(self@ == old(self)@.push(workspace@));
            assert(roots_of(self@) == roots_of(old(self)@).push(workspace@.root));
            true
        }
    }

    /// Forgets a root and hands its workspace back. Where the root is
    /// not registered nothing changes.
    pub fn remove(&mut self, root: &str) -> (r: Option<Workspace>)
        ensures
            r is Some <==> registered(old(self)@, root@),
            r matches Some(w) ==> w@ == old(self)@[slot(old(self)@, root@)] && w@.root == root@,
            final(self)@ == without_root(old(self)@, root@),
            registry_wf(old(self)@) ==> registry_wf(final(self)@) && !registered(final(self)@, root@),
    {
        match self.find(root) {
            Some(i) => {
                let workspace = self.workspaces.remove(i);
                assert(self@ == old(self)@.remove(i as int));
                assert(roots_of(self@) == roots_of(old(self)@).remove(i as int));
                Some(workspace)
            },
            None => None,
        }
    }

    /// The registered roots, in the order in which they were registered.
    pub fn roots(&self) -> (r: Vec<String>)
        ensures
            r.deep_view() == roots_of(self@),
    {
        let mut roots: Vec<String> = Vec::new();
        let mut i: usize = 0;
        while i < self.workspaces.len()
            invariant
                i <= self.workspaces.len(),
                roots.len() == i,
                forall|j: int| 0 <= j < i ==> (#[trigger] roots[j])@ == roots_of(self@)[j],
            decreases self.workspaces.len() - i,
        {
            roots.push(self.workspaces[i].root().to_owned());
            i += 1;
        }
        assert(roots.deep_view() == roots_of(self@));
        roots
    }

    /// Forgets every root, and returns the roots that were registered, in
    /// the order in which they were registered.
    pub fn clear(&mut self) -> (r: Vec<String>)
        ensures
            r.deep_view() == roots_of(old(self)@),
            final(self)@ == Seq::<WorkspaceView>::empty(),
    {
        let roots = self.roots();
        self.workspaces.clear();
        roots
    }

    /// Connects a client to the workspace of a root. Returns `false`, and
    /// changes nothing, where the root is not registered or the client is
    /// connected to it already.
    pub fn connect(&mut self, root: &str, client: ClientId) -> (r: bool)
        ensures
            r == (registered(old(self)@, root@) && !old(self)@[slot(
                old(self)@,
                root@,
            )].clients.contains(client)),
            final(self)@ == if r {
                old(self)@.update(
                    slot(old(self)@, root@),
                    old(self)@[slot(old(self)@, root@)].with_client(client),
                )
            } else {
                old(self)@
            },
            roots_of(final(self)@) == roots_of(old(self)@),
            registry_wf(old(self)@) ==> registry_wf(final(self)@),
    {
        match self.find(root) {
            Some(i) => {
                let mut workspace = self.workspaces.remove(i);
                let connected = workspace.connect(client);
                self.workspaces.insert(i, workspace);
                assert(self@ == old(self)@.update(i as int, workspace@));
                assert(roots_of(self@) == roots_of(old(self)@));
                connected
            },
            None => false,
        }
    }

    /// Disconnects a client from the workspace of a root. Returns `false`,
    /// and changes nothing, where the root is not registered or the client is
    /// not connected to it. The workspace stays registered, with or without
    /// clients.
    pub fn disconnect(&mut self, root: &str, client: ClientId) -> (r: bool)
        ensures
            r == (registered(old(self)@, root@) && old(self)@[slot(
                old(self)@,
                root@,
            )].clients.contains(client)),
            final(self)@ == if r {
                old(self)@.update(
                    slot(old(self)@, root@),
                    old(self)@[slot(old(self)@, root@)].without_client(client),
                )
            } else {
                old(self)@
            },
            roots_of(final(self)@) == roots_of(old(self)@),
            registry_wf(old(self)@) ==> registry_wf(final(self)@),
    {
        match self.find(root) {
            Some(i) => {
                let mut workspace = self.workspaces.remove(i);
                let disconnected = workspace.disconnect(client);
                self.workspaces.insert(i, workspace);
                assert(self@ == old(self)@.update(i as int, workspace@));
                assert(roots_of(self@) == roots_of(old(self)@));
                disconnected
            },
            None => false,
        }
    }
}

} // verus!
