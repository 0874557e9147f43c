//! The state that the daemon keeps across restarts, and the two kinds of
//! place in which it holds a container: the one default slot, which has no
//! name, and the named slots.

use crate::container::{Cd, CdView, ContainerInfo, ContainerInfoView};
use crate::status::{ScriptStatus, ScriptStatusView};
use crate::strmap::{del, lemma_del, lemma_put, lookup, put, StrMap};
use vstd::prelude::*;

verus! {

/// Everything that is written to disk when the daemon shuts down.
#[derive(Debug)]
pub struct DaemonState {
    /// The status that each script last reported, by script id.
    pub script_statuses: StrMap<ScriptStatus>,
    /// The unit-local key-value store.
    pub kv: StrMap<Cd<String>>,
    /// The container that is addressed without a name.
    pub default_container: Option<Cd<ContainerInfo>>,
    /// The containers that are addressed by name.
    pub named_containers: StrMap<Cd<ContainerInfo>>,
    /// The charm configuration as the orchestrator last gave it, each value
    /// as JSON text.
    pub charm_config: StrMap<Cd<String>>,
}

/// The model of a `DaemonState`.
pub struct DaemonStateView {
    pub script_statuses: Seq<(Seq<char>, ScriptStatusView)>,
    pub kv: Seq<(Seq<char>, CdView<Seq<char>>)>,
    pub default_container: Option<CdView<ContainerInfoView>>,
    pub named_containers: Seq<(Seq<char>, CdView<ContainerInfoView>)>,
    pub charm_config: Seq<(Seq<char>, CdView<Seq<char>>)>,
}

impl DeepView for DaemonState {
    type V = DaemonStateView;

    open spec fn deep_view(&self) -> DaemonStateView {
        DaemonStateView {
            script_statuses: self.script_statuses.deep_view(),
            kv: self.kv.deep_view(),
            default_container: self.default_container.deep_view(),
            named_containers: self.named_containers.deep_view(),
            charm_config: self.charm_config.deep_view(),
        }
    }
}

impl View for DaemonState {
    type V = DaemonStateView;

    open spec fn view(&self) -> DaemonStateView {
        self.deep_view()
    }
}

/// The model of a state in which nothing is stored.
pub open spec fn empty_state() -> DaemonStateView {
    DaemonStateView {
        script_statuses: Seq::empty(),
        kv: Seq::empty(),
        default_container: None,
        named_containers: Seq::empty(),
        charm_config: Seq::empty(),
    }
}

/// The container in the slot that `name` addresses: a named slot for
/// `Some`, the default slot for `None`.
pub open spec fn slot(s: DaemonStateView, name: Option<Seq<char>>) -> Option<
    CdView<ContainerInfoView>,
> {
    match name {
        Some(n) => lookup(s.named_containers, n),
        None => s.default_container,
    }
}

/// The state with `c` in the slot that `name` addresses.
pub open spec fn with_slot(
    s: DaemonStateView,
    name: Option<Seq<char>>,
    c: CdView<ContainerInfoView>,
) -> DaemonStateView {
    match name {
        Some(n) => DaemonStateView { named_containers: put(s.named_containers, n, c), ..s },
        None => DaemonStateView { default_container: Some(c), ..s },
    }
}

/// The state with the slot that `name` addresses emptied.
pub open spec fn without_slot(s: DaemonStateView, name: Option<Seq<char>>) -> DaemonStateView {
    match name {
        Some(n) => DaemonStateView { named_containers: del(s.named_containers, n), ..s },
        None => DaemonStateView { default_container: None, ..s },
    }
}

/// The default slot and the named slots are apart: what is put into or
/// taken out of a slot shows in that slot and in no other. So no name can
/// come to address the default container, and the default container never
/// turns up under a name.
pub proof fn lemma_slots_are_apart(
    s: DaemonStateView,
    name: Option<Seq<char>>,
    other: Option<Seq<char>>,
    c: CdView<ContainerInfoView>,
)
    requires
        crate::strmap::distinct_keys(s.named_containers),
    ensures
        slot(with_slot(s, name, c), name) == Some(c),
        slot(without_slot(s, name), name) is None,
        other != name ==> slot(with_slot(s, name, c), other) == slot(s, other),
        other != name ==> slot(without_slot(s, name), other) == slot(s, other),
        name is Some ==> with_slot(s, name, c).default_container == s.default_container
            && without_slot(s, name).default_container == s.default_container,
        name is None ==> with_slot(s, name, c).named_containers == s.named_containers
            && without_slot(s, name).named_containers == s.named_containers,
{
    match name {
        Some(n) => {
            lemma_put(s.named_containers, n, c);
            lemma_del(s.named_containers, n);
        },
        None => {},
    }
}

impl DaemonState {
    /// A state in which nothing is stored.
    pub fn new() -> (r: Self)
        ensures
            r@ == empty_state(),
    {
        DaemonState {
            script_statuses: StrMap::new(),
            kv: StrMap::new(),
            default_container: None,
            named_containers: StrMap::new(),
            charm_config: StrMap::new(),
        }
    }

    /// The container in the slot that `name` addresses.
    pub fn container(&self, name: &Option<String>) -> (r: Option<&Cd<ContainerInfo>>)
        ensures
            r.deep_view() == slot(self@, name.deep_view()),
    {
        match name {
            Some(n) => self.named_containers.get(n),
            None => match &self.default_container {
                Some(c) => Some(c),
                None => None,
            },
        }
    }

    /// A handle on the container in the slot that `name` addresses. What is
    /// changed through it is changed in that slot alone.
    pub fn container_mut(&mut self, name: &Option<String>) -> (r: Option<&mut Cd<ContainerInfo>>)
        ensures
            match r {
                Some(c) => slot(old(self)@, name.deep_view()) == Some(c.deep_view())
                    && final(self)@ == with_slot(
                    old(self)@,
                    name.deep_view(),
                    final(c).deep_view(),
                ),
                None => slot(old(self)@, name.deep_view()) is None && final(self)@ == old(self)@,
            },
    {
        match name {
            Some(n) => self.named_containers.get_mut(n),
            None => match &mut self.default_container {
                Some(c) => Some(c),
                None => None,
            },
        }
    }
}

/// One script that a hook or a cron job runs.
#[derive(Debug)]
pub struct ScriptEntry {
    /// The name of the script.
    pub script: String,
    /// Whether the script runs beside the others instead of in its turn.
    pub is_async: bool,
}

/// The model of a `ScriptEntry`.
pub struct ScriptEntryView {
    pub script: Seq<char>,
    pub is_async: bool,
}

impl DeepView for ScriptEntry {
    type V = ScriptEntryView;

    open spec fn deep_view(&self) -> ScriptEntryView {
        ScriptEntryView { script: self.script@, is_async: self.is_async }
    }
}

impl View for ScriptEntry {
    type V = ScriptEntryView;

    open spec fn view(&self) -> ScriptEntryView {
        self.deep_view()
    }
}

/// What the charm says of itself: whether it uses Docker, and which scripts
/// run for which hook and on which schedule.
#[derive(Debug)]
pub struct LuckyMetadata {
    pub use_docker: bool,
    /// From the name of a hook to its scripts.
    pub hooks: StrMap<Vec<ScriptEntry>>,
    /// From a cron expression to the scripts of that job.
    pub cron_jobs: StrMap<Vec<ScriptEntry>>,
}

/// The model of a `LuckyMetadata`.
pub struct LuckyMetadataView {
    pub use_docker: bool,
    pub hooks: Seq<(Seq<char>, Seq<ScriptEntryView>)>,
    pub cron_jobs: Seq<(Seq<char>, Seq<ScriptEntryView>)>,
}

impl DeepView for LuckyMetadata {
    type V = LuckyMetadataView;

    open spec fn deep_view(&self) -> LuckyMetadataView {
        LuckyMetadataView {
            use_docker: self.use_docker,
            hooks: self.hooks.deep_view(),
            cron_jobs: self.cron_jobs.deep_view(),
        }
    }
}

impl View for LuckyMetadata {
    type V = LuckyMetadataView;

    open spec fn view(&self) -> LuckyMetadataView {
        self.deep_view()
    }
}

} // verus!
