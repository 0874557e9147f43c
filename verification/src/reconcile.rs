//! Bringing the running containers in line with what is desired.
//!
//! The work on the Docker engine is not done here. For one container, and
//! for the state as a whole, a function takes what has just happened and
//! answers with the next thing to do; whoever holds the engine does it and
//! comes back with the outcome. What the state records after each step is
//! decided here.

use crate::container::{
    resolve_volume_source, volume_path, Cd, CdView, ContainerConfig, ContainerConfigView,
    ContainerInfo, ContainerInfoView,
};
use crate::ports::{binding_views, PortBinding, PortBindingView};
use crate::rpc::string_pairs;
use crate::state::{DaemonState, DaemonStateView};
use crate::status::{consolidated, statuses_of, ScriptState, ScriptStatus, ScriptStatusView};
use crate::strmap::put;
use vstd::prelude::*;

verus! {

/// The seconds that a container is given to stop before it is killed.
pub const STOP_TIMEOUT_SECS: u64 = 10;

/// A directory or file of the host that is visible inside a container.
#[derive(Debug)]
pub struct Mount {
    pub source: String,
    pub target: String,
    pub read_only: bool,
}

/// The model of a `Mount`.
pub struct MountView {
    pub source: Seq<char>,
    pub target: Seq<char>,
    pub read_only: bool,
}

impl DeepView for Mount {
    type V = MountView;

    open spec fn deep_view(&self) -> MountView {
        MountView { source: self.source@, target: self.target@, read_only: self.read_only }
    }
}

/// What the Docker engine is given to create a container.
#[derive(Debug)]
pub struct ContainerOptions {
    pub image: String,
    pub entrypoint: Option<String>,
    pub command: Option<Vec<String>>,
    pub env_vars: Vec<(String, String)>,
    pub mounts: Vec<Mount>,
    pub ports: Vec<PortBinding>,
    pub network: Option<String>,
}

/// The model of a `ContainerOptions`.
pub struct ContainerOptionsView {
    pub image: Seq<char>,
    pub entrypoint: Option<Seq<char>>,
    pub command: Option<Seq<Seq<char>>>,
    pub env_vars: Seq<(Seq<char>, Seq<char>)>,
    pub mounts: Seq<MountView>,
    pub ports: Seq<PortBindingView>,
    pub network: Option<Seq<char>>,
}

impl DeepView for ContainerOptions {
    type V = ContainerOptionsView;

    open spec fn deep_view(&self) -> ContainerOptionsView {
        ContainerOptionsView {
            image: self.image@,
            entrypoint: self.entrypoint.deep_view(),
            command: self.command.deep_view(),
            env_vars: self.env_vars.deep_view(),
            mounts: self.mounts.deep_view(),
            ports: binding_views(self.ports@),
            network: self.network.deep_view(),
        }
    }
}

/// The places of the host that the daemon works with.
#[derive(Debug)]
pub struct Paths {
    /// The directory of the charm. Containers see it, read-only.
    pub charm_dir: String,
    /// The directory of the daemon's own data, under which named volumes
    /// lie.
    pub data_dir: String,
    /// The socket on which the daemon listens. Containers see it, so that
    /// scripts in them can reach the daemon.
    pub socket_path: String,
}

/// The model of `Paths`.
pub struct PathsView {
    pub charm_dir: Seq<char>,
    pub data_dir: Seq<char>,
    pub socket_path: Seq<char>,
}

impl DeepView for Paths {
    type V = PathsView;

    open spec fn deep_view(&self) -> PathsView {
        PathsView {
            charm_dir: self.charm_dir@,
            data_dir: self.data_dir@,
            socket_path: self.socket_path@,
        }
    }
}

/// The mounts of the volumes: each at its target, from the place where its
/// data lies, writable.
pub open spec fn volume_mounts(volumes: Seq<(Seq<char>, Seq<char>)>, data_dir: Seq<char>) -> Seq<
    MountView,
> {
    Seq::new(
        volumes.len(),
        |i: int|
            MountView {
                source: volume_path(data_dir, volumes[i].1),
                target: volumes[i].0,
                read_only: false,
            },
    )
}

/// What the engine is given to create the container of `config`: the
/// configuration as it is, its volumes as mounts, and after them the charm
/// directory, read-only, and the daemon's socket, each at its own path.
pub open spec fn options_of(config: ContainerConfigView, paths: PathsView) -> ContainerOptionsView {
    ContainerOptionsView {
        image: config.image,
        entrypoint: config.entrypoint,
        command: config.command,
        env_vars: config.env_vars,
        mounts: volume_mounts(config.volumes, paths.data_dir).push(
            MountView { source: paths.charm_dir, target: paths.charm_dir, read_only: true },
        ).push(
            MountView { source: paths.socket_path, target: paths.socket_path, read_only: false },
        ),
        ports: config.ports,
        network: config.network,
    }
}

/// A copy of a list of strings.
pub fn copy_strings(list: &Vec<String>) -> (r: Vec<String>)
    ensures
        r.deep_view() == list.deep_view(),
{
    let mut copy: Vec<String> = Vec::new();
    let mut i: usize = 0;
    while i < list.len()
        invariant
            i <= list@.len(),
            copy.deep_view() == list.deep_view().take(i as int),
        decreases list@.len() - i,
    {
        let ghost before = copy.deep_view();
        copy.push(list[i].clone());
        assert(copy.deep_view() =~= before.push(list@[i as int]@));
        assert(list.deep_view().take(i as int + 1) =~= before.push(list@[i as int]@));
        i += 1;
    }
    assert(list.deep_view().take(list@.len() as int) =~= list.deep_view());
    copy
}

/// A copy of a text that may be missing.
pub fn copy_optional(text: &Option<String>) -> (r: Option<String>)
    ensures
        r.deep_view() == text.deep_view(),
{
    match text {
        Some(t) => Some(t.clone()),
        None => None,
    }
}

impl ContainerConfig {
    /// What the engine is given to create the container of this
    /// configuration.
    pub fn to_container_options(&self, paths: &Paths) -> (r: ContainerOptions)
        ensures
            r.deep_view() == options_of(self@, paths.deep_view()),
    {
        let ghost wanted = volume_mounts(self@.volumes, paths.data_dir@);
        let mut mounts: Vec<Mount> = Vec::new();
        let n: usize = self.volumes.len();
        let mut i: usize = 0;
        while i < n
            invariant
                n == self.volumes.entries().len(),
                wanted == volume_mounts(self.volumes.entries(), paths.data_dir@),
                i <= n,
                mounts.deep_view() == wanted.take(i as int),
            decreases n - i,
        {
            let ghost before = mounts.deep_view();
            mounts.push(
                Mount {
                    source: resolve_volume_source(
                        paths.data_dir.as_str(),
                        self.volumes.value_at(i).as_str(),
                    ),
                    target: self.volumes.key_at(i).clone(),
                    read_only: false,
                },
            );
            assert(mounts.deep_view() =~= before.push(wanted[i as int]));
            assert(wanted.take(i as int + 1) =~= before.push(wanted[i as int]));
            i += 1;
        }
        assert(wanted.take(n as int) =~= wanted);
        let ghost volumes_only = mounts.deep_view();
        mounts.push(
            Mount {
                source: paths.charm_dir.clone(),
                target: paths.charm_dir.clone(),
                read_only: true,
            },
        );
        let ghost with_charm = mounts.deep_view();
        assert(with_charm =~= volumes_only.push(
            MountView { source: paths.charm_dir@, target: paths.charm_dir@, read_only: true },
        ));
        mounts.push(
            Mount {
                source: paths.socket_path.clone(),
                target: paths.socket_path.clone(),
                read_only: false,
            },
        );
        assert(mounts.deep_view() =~= with_charm.push(
            MountView {
                source: paths.socket_path@,
                target: paths.socket_path@,
                read_only: false,
            },
        ));
        let command = match &self.command {
            Some(list) => Some(copy_strings(list)),
            None => None,
        };
        let mut ports: Vec<PortBinding> = Vec::new();
        let m: usize = self.ports.len();
        let mut j: usize = 0;
        while j < m
            invariant
                m == self.ports.bindings().len(),
                j <= m,
                binding_views(ports@) == self.ports.bindings().take(j as int),
            decreases m - j,
        {
            let ghost before = binding_views(ports@);
            ports.push(self.ports.get(j).clone());
            assert(binding_views(ports@) =~= before.push(self.ports.bindings()[j as int]));
            assert(self.ports.bindings().take(j as int + 1) =~= before.push(
                self.ports.bindings()[j as int],
            ));
            j += 1;
        }
        assert(self.ports.bindings().take(m as int) =~= self.ports.bindings());
        ContainerOptions {
            image: self.image.clone(),
            entrypoint: copy_optional(&self.entrypoint),
            command,
            env_vars: string_pairs(&self.env_vars),
            mounts,
            ports,
            network: copy_optional(&self.network),
        }
    }
}

/// What has just happened, as the one who does the work reports it.
#[derive(Debug)]
pub enum Event {
    /// Nothing yet: the work begins.
    Begin,
    /// The unit's status was handed to the orchestrator.
    Published,
    /// The container was stopped.
    Stopped,
    /// The container was deleted.
    Deleted,
    /// The image was pulled.
    Pulled,
    /// A container was created and has this id.
    Created(String),
    /// The container with this id was started.
    Started(String),
}

/// The model of an `Event`.
pub enum EventView {
    Begin,
    Published,
    Stopped,
    Deleted,
    Pulled,
    Created(Seq<char>),
    Started(Seq<char>),
}

impl DeepView for Event {
    type V = EventView;

    open spec fn deep_view(&self) -> EventView {
        match self {
            Event::Begin => EventView::Begin,
            Event::Published => EventView::Published,
            Event::Stopped => EventView::Stopped,
            Event::Deleted => EventView::Deleted,
            Event::Pulled => EventView::Pulled,
            Event::Created(id) => EventView::Created(id@),
            Event::Started(id) => EventView::Started(id@),
        }
    }
}

/// The next thing to do.
#[derive(Debug)]
pub enum Action {
    /// Hand this status of the unit to the orchestrator.
    Publish(ScriptStatus),
    /// Stop the container, giving it this many seconds.
    Stop { id: String, timeout_secs: u64 },
    /// Delete the container.
    Delete { id: String },
    /// Pull the image.
    Pull { image: String },
    /// Create a container.
    Create { options: ContainerOptions },
    /// Start the container.
    Start { id: String },
    /// Nothing: the work is done.
    Done,
}

/// The model of an `Action`.
pub enum ActionView {
    Publish(ScriptStatusView),
    Stop { id: Seq<char>, timeout_secs: u64 },
    Delete { id: Seq<char> },
    Pull { image: Seq<char> },
    Create { options: ContainerOptionsView },
    Start { id: Seq<char> },
    Done,
}

impl DeepView for Action {
    type V = ActionView;

    open spec fn deep_view(&self) -> ActionView {
        match self {
            Action::Publish(status) => ActionView::Publish(status@),
            Action::Stop { id, timeout_secs } => ActionView::Stop {
                id: id@,
                timeout_secs: *timeout_secs,
            },
            Action::Delete { id } => ActionView::Delete { id: id@ },
            Action::Pull { image } => ActionView::Pull { image: image@ },
            Action::Create { options } => ActionView::Create { options: options.deep_view() },
            Action::Start { id } => ActionView::Start { id: id@ },
            Action::Done => ActionView::Done,
        }
    }
}

/// How the work on one container goes on.
#[derive(Debug)]
pub enum Step {
    /// With this action on the engine.
    Act(Action),
    /// It is over, and the container stays in its slot.
    Keep,
    /// It is over, and the slot is emptied.
    Drop,
}

/// The model of a `Step`.
pub enum StepView {
    Act(ActionView),
    Keep,
    Drop,
}

impl DeepView for Step {
    type V = StepView;

    open spec fn deep_view(&self) -> StepView {
        match self {
            Step::Act(action) => StepView::Act(action.deep_view()),
            Step::Keep => StepView::Keep,
            Step::Drop => StepView::Drop,
        }
    }
}

/// What the containers are gone through for.
#[derive(Clone, Copy, Debug, PartialEq, Eq, Structural)]
pub enum Purpose {
    /// To make the running containers what is desired.
    Apply,
    /// To stop and delete every running container.
    RemoveAll,
}

/// The container with the id of its running container set or unset, its
/// flag untouched.
pub open spec fn with_id(c: CdView<ContainerInfoView>, id: Option<Seq<char>>) -> CdView<
    ContainerInfoView,
> {
    CdView { value: ContainerInfoView { id, ..c.value }, dirty: c.dirty }
}

/// How applying goes on once no container runs for the slot any more: a
/// container that is to be removed leaves its slot; for any other the image
/// is pulled, or, where it is not to be pulled, the container is created
/// right away.
pub open spec fn after_removal(c: CdView<ContainerInfoView>, paths: PathsView) -> StepView {
    if c.value.pending_removal {
        StepView::Drop
    } else if c.value.pull_image {
        StepView::Act(ActionView::Pull { image: c.value.config.image })
    } else {
        StepView::Act(ActionView::Create { options: options_of(c.value.config, paths) })
    }
}

/// One step of applying the desired state of a container.
///
/// At the beginning a container that is unchanged is left alone. For a
/// changed one, the container that runs for it, if any, is stopped and then
/// deleted, and its id forgotten. Then, unless the container is to be
/// removed, the image is pulled where that is asked for, a container is
/// created from the configuration and started; with that its id is
/// recorded and the container counts as unchanged.
pub open spec fn apply_step(c: CdView<ContainerInfoView>, event: EventView, paths: PathsView) -> (
    CdView<ContainerInfoView>,
    StepView,
) {
    match event {
        EventView::Begin | EventView::Published => if !c.dirty {
            (c, StepView::Keep)
        } else {
            match c.value.id {
                Some(id) => (
                    c,
                    StepView::Act(ActionView::Stop { id, timeout_secs: STOP_TIMEOUT_SECS }),
                ),
                None => (c, after_removal(c, paths)),
            }
        },
        EventView::Stopped => match c.value.id {
            Some(id) => (c, StepView::Act(ActionView::Delete { id })),
            None => (c, after_removal(c, paths)),
        },
        EventView::Deleted => (with_id(c, None), after_removal(c, paths)),
        EventView::Pulled => (
            c,
            StepView::Act(ActionView::Create { options: options_of(c.value.config, paths) }),
        ),
        EventView::Created(id) => (c, StepView::Act(ActionView::Start { id })),
        EventView::Started(id) => (
            CdView { value: ContainerInfoView { id: Some(id), ..c.value }, dirty: false },
            StepView::Keep,
        ),
    }
}

/// One step of removing the container that runs for a slot: it is stopped,
/// then deleted, and its id forgotten. The slot keeps what is desired.
pub open spec fn remove_step(c: CdView<ContainerInfoView>, event: EventView) -> (
    CdView<ContainerInfoView>,
    StepView,
) {
    match event {
        EventView::Begin | EventView::Published => match c.value.id {
            Some(id) => (
                c,
                StepView::Act(ActionView::Stop { id, timeout_secs: STOP_TIMEOUT_SECS }),
            ),
            None => (c, StepView::Keep),
        },
        EventView::Stopped => match c.value.id {
            Some(id) => (c, StepView::Act(ActionView::Delete { id })),
            None => (c, StepView::Keep),
        },
        EventView::Deleted => (with_id(c, None), StepView::Keep),
        _ => (c, StepView::Keep),
    }
}

/// One step of the work on one container, for either purpose.
pub open spec fn container_step(
    purpose: Purpose,
    c: CdView<ContainerInfoView>,
    event: EventView,
    paths: PathsView,
) -> (CdView<ContainerInfoView>, StepView) {
    match purpose {
        Purpose::Apply => apply_step(c, event, paths),
        Purpose::RemoveAll => remove_step(c, event),
    }
}

/// Applying to a container that is unchanged does nothing: no action is
/// asked for and the container stays as it is. And a container whose start
/// has just been recorded is unchanged, so that applying it again does
/// nothing.
pub proof fn lemma_apply_is_idempotent(
    c: CdView<ContainerInfoView>,
    id: Seq<char>,
    paths: PathsView,
)
    ensures
        !c.dirty ==> apply_step(c, EventView::Begin, paths) == (c, StepView::Keep),
        !apply_step(c, EventView::Started(id), paths).0.dirty,
        apply_step(
            apply_step(c, EventView::Started(id), paths).0,
            EventView::Begin,
            paths,
        ) == (apply_step(c, EventView::Started(id), paths).0, StepView::Keep),
{
}

/// How applying goes on once no container runs for the slot any more.
fn next_after_removal(container: &Cd<ContainerInfo>, paths: &Paths) -> (r: Step)
    ensures
        r.deep_view() == after_removal(container.deep_view(), paths.deep_view()),
{
    let info = container.get();
    if info.pending_removal {
        Step::Drop
    } else if info.pull_image {
        Step::Act(Action::Pull { image: info.config.image.clone() })
    } else {
        Step::Act(Action::Create { options: info.config.to_container_options(paths) })
    }
}

/// One step of applying the desired state of a container: takes what has
/// just happened, records it, and answers with what is next.
pub fn apply_updates(container: &mut Cd<ContainerInfo>, event: Event, paths: &Paths) -> (r: Step)
    ensures
        (final(container).deep_view(), r.deep_view()) == apply_step(
            old(container).deep_view(),
            event.deep_view(),
            paths.deep_view(),
        ),
{
    match event {
        Event::Begin | Event::Published => {
            if container.is_clean() {
                Step::Keep
            } else {
                match &container.get().id {
                    Some(id) => Step::Act(
                        Action::Stop { id: id.clone(), timeout_secs: STOP_TIMEOUT_SECS },
                    ),
                    None => next_after_removal(container, paths),
                }
            }
        },
        Event::Stopped => match &container.get().id {
            Some(id) => Step::Act(Action::Delete { id: id.clone() }),
            None => next_after_removal(container, paths),
        },
        Event::Deleted => {
            container.untracked().id = None;
            next_after_removal(container, paths)
        },
        Event::Pulled => Step::Act(
            Action::Create { options: container.get().config.to_container_options(paths) },
        ),
        Event::Created(id) => Step::Act(Action::Start { id }),
        Event::Started(id) => {
            container.untracked().id = Some(id);
            container.clean();
            Step::Keep
        },
    }
}

/// One step of removing the container that runs for a slot: takes what has
/// just happened, records it, and answers with what is next.
pub fn remove_container(container: &mut Cd<ContainerInfo>, event: Event) -> (r: Step)
    ensures
        (final(container).deep_view(), r.deep_view()) == remove_step(
            old(container).deep_view(),
            event.deep_view(),
        ),
{
    match event {
        Event::Begin | Event::Published => match &container.get().id {
            Some(id) => Step::Act(
                Action::Stop { id: id.clone(), timeout_secs: STOP_TIMEOUT_SECS },
            ),
            None => Step::Keep,
        },
        Event::Stopped => match &container.get().id {
            Some(id) => Step::Act(Action::Delete { id: id.clone() }),
            None => Step::Keep,
        },
        Event::Deleted => {
            container.untracked().id = None;
            Step::Keep
        },
        _ => Step::Keep,
    }
}

/// Where the work on the containers of a state stands.
#[derive(Clone, Copy, Debug, PartialEq, Eq, Structural)]
pub enum Cursor {
    /// Before anything was done.
    Start,
    /// At the named container at this place.
    Named(usize),
    /// At the default container.
    Default,
    /// After the last container, while the closing status is published.
    Closing,
    /// At the end.
    Finished,
}

/// The id under which the daemon reports its own status while it works on
/// the containers.
pub open spec fn purpose_script_id(purpose: Purpose) -> Seq<char> {
    match purpose {
        Purpose::Apply => "__lucky::daemon::tools::apply_container_updates"@,
        Purpose::RemoveAll => "__lucky::daemon::hook_handlers::handle_stop"@,
    }
}

/// The message of the status that the daemon reports while it works on the
/// containers.
pub open spec fn purpose_message(purpose: Purpose) -> Seq<char> {
    match purpose {
        Purpose::Apply => "Applying Docker configuration updates"@,
        Purpose::RemoveAll => "Removing containers"@,
    }
}

/// The state with the status of one script recorded.
pub open spec fn with_status(
    s: DaemonStateView,
    script_id: Seq<char>,
    status: ScriptStatusView,
) -> DaemonStateView {
    DaemonStateView { script_statuses: put(s.script_statuses, script_id, status), ..s }
}

/// The status of the unit as it follows from the statuses in `s`.
pub open spec fn unit_status(s: DaemonStateView) -> ScriptStatusView {
    consolidated(statuses_of(s.script_statuses))
}

/// The beginning of the work: the daemon reports that it is busy, and the
/// unit's status is to be published.
pub open spec fn open_work(purpose: Purpose, s: DaemonStateView) -> (
    DaemonStateView,
    Cursor,
    ActionView,
) {
    let busy = with_status(
        s,
        purpose_script_id(purpose),
        ScriptStatusView {
            state: ScriptState::Maintenance,
            message: Some(purpose_message(purpose)),
        },
    );
    (busy, Cursor::Named(0), ActionView::Publish(unit_status(busy)))
}

/// The end of the work: when containers were removed the default slot is
/// emptied; the daemon reports that it is active, and the unit's status is
/// to be published.
pub open spec fn close_work(purpose: Purpose, s: DaemonStateView) -> (
    DaemonStateView,
    Cursor,
    ActionView,
) {
    let cleared = match purpose {
        Purpose::Apply => s,
        Purpose::RemoveAll => DaemonStateView { default_container: None, ..s },
    };
    let idle = with_status(
        cleared,
        purpose_script_id(purpose),
        ScriptStatusView { state: ScriptState::Active, message: None },
    );
    (idle, Cursor::Closing, ActionView::Publish(unit_status(idle)))
}

/// How far the work is from its end, counted in slots.
pub open spec fn slots_left(s: DaemonStateView, cursor: Cursor) -> nat {
    match cursor {
        Cursor::Named(i) => if i <= s.named_containers.len() {
            (s.named_containers.len() - i + 1) as nat
        } else {
            1
        },
        _ => 0,
    }
}

/// One step of the work on the containers of a state: what the state
/// records of `event`, where the work stands then, and what is to be done
/// next.
///
/// The named containers are gone through in their order, then the default
/// container. A container stays current while actions on it are under way.
/// When it is over for a container, the container stays in its slot or
/// leaves it, and the next one begins. When containers are removed, the
/// named slots are emptied after the last named container, and the default
/// slot after the default container. (A place past the last index that the
/// machine can hold ends the work; no map is that long.)
pub open spec fn work_step(
    purpose: Purpose,
    s: DaemonStateView,
    cursor: Cursor,
    event: EventView,
    paths: PathsView,
) -> (DaemonStateView, Cursor, ActionView)
    decreases slots_left(s, cursor),
{
    match cursor {
        Cursor::Start => open_work(purpose, s),
        Cursor::Named(i) => if i >= s.named_containers.len() {
            let cleared = match purpose {
                Purpose::Apply => s,
                Purpose::RemoveAll => DaemonStateView { named_containers: Seq::empty(), ..s },
            };
            work_step(purpose, cleared, Cursor::Default, EventView::Begin, paths)
        } else {
            let entry = s.named_containers[i as int];
            let (c, step) = container_step(purpose, entry.1, event, paths);
            let recorded = DaemonStateView {
                named_containers: s.named_containers.update(i as int, (entry.0, c)),
                ..s
            };
            match step {
                StepView::Act(action) => (recorded, cursor, action),
                StepView::Keep => if i < usize::MAX {
                    work_step(
                        purpose,
                        recorded,
                        Cursor::Named((i + 1) as usize),
                        EventView::Begin,
                        paths,
                    )
                } else {
                    (recorded, cursor, ActionView::Done)
                },
                StepView::Drop => work_step(
                    purpose,
                    DaemonStateView {
                        named_containers: s.named_containers.remove(i as int),
                        ..s
                    },
                    cursor,
                    EventView::Begin,
                    paths,
                ),
            }
        },
        Cursor::Default => match s.default_container {
            None => close_work(purpose, s),
            Some(current) => {
                let (c, step) = container_step(purpose, current, event, paths);
                match step {
                    StepView::Act(action) => (
                        DaemonStateView { default_container: Some(c), ..s },
                        cursor,
                        action,
                    ),
                    StepView::Keep => close_work(
                        purpose,
                        DaemonStateView { default_container: Some(c), ..s },
                    ),
                    StepView::Drop => close_work(
                        purpose,
                        DaemonStateView { default_container: None, ..s },
                    ),
                }
            },
        },
        Cursor::Closing | Cursor::Finished => (s, Cursor::Finished, ActionView::Done),
    }
}

/// No container of the state has been changed since it was last applied.
pub open spec fn all_clean(s: DaemonStateView) -> bool {
    &&& forall|i: int|
        0 <= i < s.named_containers.len() ==> !(#[trigger] s.named_containers[i]).1.dirty
    &&& s.default_container is Some ==> !s.default_container.unwrap().dirty
}

/// Applying a state in which no container has been changed asks nothing of
/// the engine and leaves every container as it is: the work goes straight
/// to its end, from whichever named container it starts. So applying twice
/// in a row does nothing the second time.
pub proof fn lemma_apply_of_clean_state(
    s: DaemonStateView,
    i: usize,
    event: EventView,
    paths: PathsView,
)
    requires
        all_clean(s),
        event == EventView::Begin || event == EventView::Published,
        s.named_containers.len() <= usize::MAX,
    ensures
        work_step(Purpose::Apply, s, Cursor::Named(i), event, paths) == close_work(
            Purpose::Apply,
            s,
        ),
        close_work(Purpose::Apply, s).0.named_containers == s.named_containers,
        close_work(Purpose::Apply, s).0.default_container == s.default_container,
        close_work(Purpose::Apply, s).2 is Publish,
    decreases slots_left(s, Cursor::Named(i)),
{
    if i < s.named_containers.len() {
        let entry = s.named_containers[i as int];
        assert(!entry.1.dirty);
        assert(container_step(Purpose::Apply, entry.1, event, paths) == (entry.1, StepView::Keep));
        assert(s.named_containers.update(i as int, (entry.0, entry.1)) =~= s.named_containers);
        let recorded = DaemonStateView {
            named_containers: s.named_containers.update(i as int, (entry.0, entry.1)),
            ..s
        };
        assert(recorded == s);
        lemma_apply_of_clean_state(s, (i + 1) as usize, EventView::Begin, paths);
    } else {
        reveal_with_fuel(work_step, 2);
        match s.default_container {
            Some(current) => {
                assert(container_step(Purpose::Apply, current, EventView::Begin, paths) == (
                    current,
                    StepView::Keep,
                ));
                assert(DaemonStateView { default_container: Some(current), ..s } == s);
            },
            None => {},
        }
    }
}

/// The id under which the daemon reports its own status while it works on
/// the containers.
pub fn script_id_for(purpose: Purpose) -> (r: String)
    ensures
        r@ == purpose_script_id(purpose),
{
    match purpose {
        Purpose::Apply => "__lucky::daemon::tools::apply_container_updates".to_owned(),
        Purpose::RemoveAll => "__lucky::daemon::hook_handlers::handle_stop".to_owned(),
    }
}

/// The message of the status that the daemon reports while it works on the
/// containers.
pub fn message_for(purpose: Purpose) -> (r: String)
    ensures
        r@ == purpose_message(purpose),
{
    match purpose {
        Purpose::Apply => "Applying Docker configuration updates".to_owned(),
        Purpose::RemoveAll => "Removing containers".to_owned(),
    }
}

/// The end of the work on the containers of a state.
fn finish_work(state: &mut DaemonState, purpose: Purpose) -> (r: (Cursor, Action))
    ensures
        (final(state)@, r.0, r.1.deep_view()) == close_work(purpose, old(state)@),
{
    match purpose {
        Purpose::Apply => {},
        Purpose::RemoveAll => {
            state.default_container = None;
        },
    }
    let status = state.set_script_status(
        script_id_for(purpose),
        ScriptStatus { state: ScriptState::Active, message: None },
    );
    (Cursor::Closing, Action::Publish(status))
}

/// One step of the work on the containers of a state, for either purpose:
/// takes where the work stands and what has just happened, records it, and
/// answers with where the work stands now and what is to be done next.
///
/// The work begins with the cursor `Start` and is over when the action is
/// `Done`. Between two steps the caller does what the action says and
/// reports it: `Published` after `Publish`, `Stopped` after `Stop`,
/// `Deleted` after `Delete`, `Pulled` after `Pull`, `Created` with the new
/// id after `Create`, and `Started` with that id after `Start`. Where an
/// action fails the caller stops; the state then holds what was recorded
/// up to there.
pub fn apply_container_updates(
    state: &mut DaemonState,
    purpose: Purpose,
    cursor: Cursor,
    event: Event,
    paths: &Paths,
) -> (r: (Cursor, Action))
    ensures
        (final(state)@, r.0, r.1.deep_view()) == work_step(
            purpose,
            old(state)@,
            cursor,
            event.deep_view(),
            paths.deep_view(),
        ),
{
    let ghost goal = work_step(purpose, state@, cursor, event.deep_view(), paths.deep_view());
    let mut at = cursor;
    let mut happened = event;
    loop
        invariant
            goal == work_step(
                purpose,
                old(state)@,
                cursor,
                event.deep_view(),
                paths.deep_view(),
            ),
            work_step(purpose, state@, at, happened.deep_view(), paths.deep_view()) == goal,
        decreases slots_left(state@, at),
    {
        match at {
            Cursor::Start => {
                let status = state.set_script_status(
                    script_id_for(purpose),
                    ScriptStatus {
                        state: ScriptState::Maintenance,
                        message: Some(message_for(purpose)),
                    },
                );
                return (Cursor::Named(0), Action::Publish(status));
            },
            Cursor::Named(i) => {
                if i >= state.named_containers.len() {
                    match purpose {
                        Purpose::Apply => {},
                        Purpose::RemoveAll => {
                            state.named_containers.clear();
                        },
                    }
                    at = Cursor::Default;
                    happened = Event::Begin;
                } else {
                    let ghost before = state@;
                    let container = state.named_containers.value_at_mut(i);
                    let step = match purpose {
                        Purpose::Apply => apply_updates(container, happened, paths),
                        Purpose::RemoveAll => remove_container(container, happened),
                    };
                    match step {
                        Step::Act(action) => {
                            return (at, action);
                        },
                        Step::Keep => {
                            at = Cursor::Named(i + 1);
                            happened = Event::Begin;
                        },
                        Step::Drop => {
                            state.named_containers.remove_at(i);
                            assert(state@.named_containers =~= before.named_containers.remove(
                                i as int,
                            ));
                            happened = Event::Begin;
                        },
                    }
                }
            },
            Cursor::Default => {
                match &mut state.default_container {
                    Some(container) => {
                        let step = match purpose {
                            Purpose::Apply => apply_updates(container, happened, paths),
                            Purpose::RemoveAll => remove_container(container, happened),
                        };
                        match step {
                            Step::Act(action) => {
                                return (at, action);
                            },
                            Step::Keep => {},
                            Step::Drop => {
                                state.default_container = None;
                            },
                        }
                    },
                    None => {},
                }
                return finish_work(state, purpose);
            },
            Cursor::Closing | Cursor::Finished => {
                return (Cursor::Finished, Action::Done);
            },
        }
    }
}

} // verus!
