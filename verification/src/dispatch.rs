//! The commands that change or read the registry of workspaces.

use crate::registry::{
    registered, registry_wf, roots_of, slot, without_root, Workspace, WorkspaceRegistry,
    WorkspaceView,
};
use vstd::prelude::*;

verus! {

/// What was found under a root that marks it as a project.
#[derive(Debug, Clone, Copy, PartialEq, Eq, Structural, Hash)]
pub struct ProjectMarkers {
    /// A file `project.yml` is there.
    pub project_yml: bool,
    /// A file `Project.swift` is there.
    pub project_swift: bool,
    /// A file `Package.swift` is there.
    pub package_swift: bool,
    /// The number of entries that match `*.xcodeproj`.
    pub xcodeproj: usize,
}

impl ProjectMarkers {
    /// Some marker of a project was found.
    pub open spec fn spec_found(self) -> bool {
        self.project_yml || self.project_swift || self.package_swift || self.xcodeproj != 0
    }

    /// Whether some marker of a project was found.
    #[verifier::when_used_as_spec(spec_found)]
    pub fn found(self) -> (r: bool)
        ensures
            r == self.spec_found(),
    {
        self.project_yml || self.project_swift || self.package_swift || self.xcodeproj != 0
    }
}

/// Whether a request to register `root` is granted: the root is not
/// registered yet, and it holds a project.
pub open spec fn register_granted(
    state: Seq<WorkspaceView>,
    root: Seq<char>,
    markers: ProjectMarkers,
) -> bool {
    !registered(state, root) && markers.spec_found()
}

/// The registry after a request to register `root`.
pub open spec fn after_register(
    state: Seq<WorkspaceView>,
    root: Seq<char>,
    markers: ProjectMarkers,
    ignore_patterns: Seq<Seq<char>>,
) -> Seq<WorkspaceView> {
    if register_granted(state, root, markers) {
        state.push(WorkspaceView { root, clients: Seq::empty(), ignore_patterns })
    } else {
        state
    }
}

/// The registry after a request to drop one root, or all of them.
pub open spec fn after_drop(state: Seq<WorkspaceView>, root: Option<Seq<char>>) -> Seq<
    WorkspaceView,
> {
    match root {
        Some(root) => without_root(state, root),
        None => Seq::empty(),
    }
}

/// The registered roots that a request names: the given root if it is
/// registered, or every registered root, in the order in which they were
/// registered, where no root is given.
pub open spec fn named_roots(state: Seq<WorkspaceView>, root: Option<Seq<char>>) -> Seq<
    Seq<char>,
> {
    match root {
        Some(root) => if registered(state, root) {
            seq![root]
        } else {
            Seq::empty()
        },
        None => roots_of(state),
    }
}

/// The roots that a request to drop takes out of the registry: those that
/// it names. These are the roots whose watchers end.
pub open spec fn dropped_roots(state: Seq<WorkspaceView>, root: Option<Seq<char>>) -> Seq<
    Seq<char>,
> {
    named_roots(state, root)
}

/// The answer to the question which roots are watched: those that the
/// question names.
pub open spec fn watched_roots(state: Seq<WorkspaceView>, root: Option<Seq<char>>) -> Seq<
    Seq<char>,
> {
    named_roots(state, root)
}

/// The commands that clients send, as functions on the registry.
pub struct XBaseUserData;

impl XBaseUserData {
    /// Registers the workspace of `root`, with the patterns that it adds to
    /// the default ignore patterns.
    ///
    /// Returns `false`, and changes nothing, where `root` is registered
    /// already or none of the markers of a project was found under it.
    /// Where `true` is returned, a watcher is to be started for `root`.
    pub fn register(
        registry: &mut WorkspaceRegistry,
        root: String,
        markers: ProjectMarkers,
        ignore_patterns: Vec<String>,
    ) -> (r: bool)
        ensures
            r == register_granted(old(registry)@, root@, markers),
            final(registry)@ == after_register(
                old(registry)@,
                root@,
                markers,
                ignore_patterns.deep_view(),
            ),
            registry_wf(old(registry)@) ==> registry_wf(final(registry)@),
    {
        if registry.contains(root.as_str()) || !markers.found() {
            return false;
        }
        registry.insert(Workspace::new(root, ignore_patterns))
    }

    /// Drops the workspace of `root`, or every workspace where no root is
    /// given. Dropping a root that is not registered changes nothing.
    ///
    /// Returns the roots that were taken out; the watcher of each of them
    /// is to be ended.
    pub fn drop(registry: &mut WorkspaceRegistry, root: Option<String>) -> (r: Vec<String>)
        ensures
            final(registry)@ == after_drop(
                old(registry)@,
                match root {
                    Some(root) => Some(root@),
                    None => None,
                },
            ),
            r.deep_view() == dropped_roots(
                old(registry)@,
                match root {
                    Some(root) => Some(root@),
                    None => None,
                },
            ),
            registry_wf(old(registry)@) ==> registry_wf(final(registry)@),
    {
        match root {
            Some(root) => {
                let mut dropped: Vec<String> = Vec::new();
                match registry.remove(root.as_str()) {
                    Some(_) => {
                        dropped.push(root);
                        assert(dropped.deep_view() == seq![root@]);
                    },
                    None => {
                        assert(dropped.deep_view() == Seq::<Seq<char>>::empty());
                    },
                }
                dropped
            },
            None => registry.clear(),
        }
    }

    /// The roots that are watched: all of them where no root is given, else
    /// the given one if it is registered. The registry stays as it is.
    pub fn watching(registry: &WorkspaceRegistry, root: Option<String>) -> (r: Vec<String>)
        ensures
            r.deep_view() == watched_roots(
                registry@,
                match root {
                    Some(root) => Some(root@),
                    None => None,
                },
            ),
    {
        match root {
            Some(root) => {
                let mut watched: Vec<String> = Vec::new();
                if registry.contains(root.as_str()) {
                    watched.push(root);
                    assert(watched.deep_view() == seq![root@]);
                } else {
                    assert(watched.deep_view() == Seq::<Seq<char>>::empty());
                }
                watched
            },
            None => registry.roots(),
        }
    }
}

/// A root that was registered with success is refused when it is registered
/// again, as long as it is not dropped, and the second request changes
/// nothing.
pub proof fn lemma_register_once(
    state: Seq<WorkspaceView>,
    root: Seq<char>,
    first: ProjectMarkers,
    first_patterns: Seq<Seq<char>>,
    second: ProjectMarkers,
    second_patterns: Seq<Seq<char>>,
)
    requires
        register_granted(state, root, first),
    ensures
        !register_granted(after_register(state, root, first, first_patterns), root, second),
        after_register(
            after_register(state, root, first, first_patterns),
            root,
            second,
            second_patterns,
        ) == after_register(state, root, first, first_patterns),
{
    let next = after_register(state, root, first, first_patterns);
    assert(roots_of(next)[state.len() as int] == root);
}

/// A request that is refused leaves the registry as it was, and a workspace
/// comes into being only where a request is granted.
pub proof fn lemma_register_refused_changes_nothing(
    state: Seq<WorkspaceView>,
    root: Seq<char>,
    markers: ProjectMarkers,
    ignore_patterns: Seq<Seq<char>>,
)
    ensures
        !register_granted(state, root, markers) ==> after_register(
            state,
            root,
            markers,
            ignore_patterns,
        ) == state,
        !markers.spec_found() ==> !register_granted(state, root, markers),
        registered(state, root) ==> !register_granted(state, root, markers),
{
}

/// Registering keeps every root unique.
pub proof fn lemma_register_keeps_roots_unique(
    state: Seq<WorkspaceView>,
    root: Seq<char>,
    markers: ProjectMarkers,
    ignore_patterns: Seq<Seq<char>>,
)
    requires
        registry_wf(state),
    ensures
        registry_wf(after_register(state, root, markers, ignore_patterns)),
{
    let next = after_register(state, root, markers, ignore_patterns);
    if register_granted(state, root, markers) {
        assert(roots_of(next) == roots_of(state).push(root));
        assert forall|i: int, j: int|
            0 <= i < roots_of(next).len() && 0 <= j < roots_of(next).len() && i != j implies roots_of(
            next,
        )[i] != roots_of(next)[j] by {
            if i < state.len() {
                assert(roots_of(state)[i] == roots_of(next)[i]);
            }
            if j < state.len() {
                assert(roots_of(state)[j] == roots_of(next)[j]);
            }
        }
        assert forall|i: int| 0 <= i < next.len() implies (#[trigger] next[i]).wf() by {
            if i < state.len() {
                assert(next[i] == state[i]);
            }
        }
    }
}

/// Dropping every root empties the registry: nothing is watched after it.
pub proof fn lemma_drop_all_empties(state: Seq<WorkspaceView>, asked: Option<Seq<char>>)
    ensures
        after_drop(state, None).len() == 0,
        watched_roots(after_drop(state, None), asked) == Seq::<Seq<char>>::empty(),
        dropped_roots(state, None) == roots_of(state),
{
    let gone = after_drop(state, None);
    assert(roots_of(gone) =~= Seq::<Seq<char>>::empty());
    match asked {
        Some(root) => {
            assert(!registered(gone, root));
        },
        None => {},
    }
}

/// Dropping a root that is not registered changes nothing and ends no
/// watcher.
pub proof fn lemma_drop_unknown_changes_nothing(state: Seq<WorkspaceView>, root: Seq<char>)
    requires
        !registered(state, root),
    ensures
        after_drop(state, Some(root)) == state,
        dropped_roots(state, Some(root)) == Seq::<Seq<char>>::empty(),
{
}

} // verus!
