//! The requests that read or change the daemon's state: script statuses,
//! the key-value store and the desired state of the containers.
//!
//! A request that names a container acts on the named slot; one that names
//! none acts on the default slot. Where the slot is empty, a request that
//! changes a setting does nothing (only setting the image fills a slot).

use crate::container::{
    fresh_container, resolve_volume_source, volume_path, Cd, CdView, ContainerConfigView,
    ContainerInfo, ContainerInfoView,
};
use crate::error::ValidationError;
use crate::ports::{
    binding_views, first_conflict, has_conflict, with_binding, without_binding, PortBinding,
    PortBindingView,
};
use crate::state::{slot, with_slot, DaemonState, DaemonStateView};
use crate::status::{consolidate, consolidated, statuses_of, ScriptStatus};
use crate::strmap::{del, has_key, lookup, put, StrMap};
use vstd::prelude::*;

verus! {

/// A container that has been changed and awaits being applied.
pub open spec fn changed(c: ContainerInfoView) -> CdView<ContainerInfoView> {
    CdView { value: c, dirty: true }
}

/// The state after the container in the slot `name`, if there is one, has
/// been replaced by `f` of it and marked as changed.
pub open spec fn with_container_changed(
    s: DaemonStateView,
    name: Option<Seq<char>>,
    f: spec_fn(ContainerInfoView) -> ContainerInfoView,
) -> DaemonStateView {
    match slot(s, name) {
        Some(c) => with_slot(s, name, changed(f(c.value))),
        None => s,
    }
}

/// A request that changes the container in one slot leaves every other
/// slot as it is: what is asked of a named container never shows in the
/// default container or under another name, and what is asked of the
/// default container never shows under a name.
pub proof fn lemma_change_is_local(
    s: DaemonStateView,
    name: Option<Seq<char>>,
    other: Option<Seq<char>>,
    f: spec_fn(ContainerInfoView) -> ContainerInfoView,
)
    requires
        crate::strmap::distinct_keys(s.named_containers),
        other != name,
    ensures
        slot(with_container_changed(s, name, f), other) == slot(s, other),
        slot(s, name) is Some ==> slot(with_container_changed(s, name, f), name) == Some(
            changed(f(slot(s, name).unwrap().value)),
        ),
        slot(s, name) is None ==> with_container_changed(s, name, f) == s,
{
    match slot(s, name) {
        Some(c) => {
            crate::state::lemma_slots_are_apart(s, name, other, changed(f(c.value)));
        },
        None => {},
    }
}

/// The port number that an integer of a request stands for, if any.
pub open spec fn port_of(n: int) -> Option<u16> {
    if 0 <= n <= 65535 {
        Some(n as u16)
    } else {
        None
    }
}

/// Reads an integer of a request as a port number.
pub fn port_number(n: i64) -> (r: Option<u16>)
    ensures
        r == port_of(n as int),
{
    if 0 <= n && n <= 65535 {
        Some(n as u16)
    } else {
        None
    }
}

/// The entries of a map of strings, as pairs of a key and its value.
pub fn string_pairs(map: &StrMap<String>) -> (r: Vec<(String, String)>)
    ensures
        r.deep_view() == map.deep_view(),
{
    let mut pairs: Vec<(String, String)> = Vec::new();
    let n: usize = map.len();
    let mut i: usize = 0;
    while i < n
        invariant
            n == map.entries().len(),
            i <= n,
            pairs.deep_view() == map.entries().take(i as int),
        decreases n - i,
    {
        let ghost before = pairs.deep_view();
        pairs.push((map.key_at(i).clone(), map.value_at(i).clone()));
        assert(pairs.deep_view() =~= before.push(map.entries()[i as int]));
        assert(map.entries().take(i as int + 1) =~= before.push(map.entries()[i as int]));
        i += 1;
    }
    assert(map.entries().take(n as int) =~= map.entries());
    pairs
}

/// The values of the entries, each without its flag.
pub open spec fn plain_values(entries: Seq<(Seq<char>, CdView<Seq<char>>)>) -> Seq<
    (Seq<char>, Seq<char>),
> {
    Seq::new(entries.len(), |i: int| (entries[i].0, entries[i].1.value))
}

/// The entries of a map of flagged strings, as pairs of a key and its value.
pub fn flagged_string_pairs(map: &StrMap<Cd<String>>) -> (r: Vec<(String, String)>)
    ensures
        r.deep_view() == plain_values(map.deep_view()),
{
    let mut pairs: Vec<(String, String)> = Vec::new();
    let n: usize = map.len();
    let mut i: usize = 0;
    while i < n
        invariant
            n == map.entries().len(),
            i <= n,
            pairs.deep_view() == plain_values(map.entries()).take(i as int),
        decreases n - i,
    {
        let ghost before = pairs.deep_view();
        pairs.push((map.key_at(i).clone(), map.value_at(i).get().clone()));
        assert(pairs.deep_view() =~= before.push(plain_values(map.entries())[i as int]));
        assert(plain_values(map.entries()).take(i as int + 1) =~= before.push(
            plain_values(map.entries())[i as int],
        ));
        i += 1;
    }
    assert(plain_values(map.entries()).take(n as int) =~= plain_values(map.entries()));
    pairs
}

/// Makes the changes to a map of strings, in their order.
pub fn apply_string_changes(map: &mut StrMap<String>, changes: &StrMap<Option<String>>)
    ensures
        final(map).deep_view() == crate::strmap::apply_changes(
            old(map).deep_view(),
            changes.deep_view(),
        ),
{
    let ghost start = map.entries();
    let ghost all = changes.entries();
    let n: usize = changes.len();
    let mut i: usize = 0;
    while i < n
        invariant
            n == all.len(),
            all == changes.entries(),
            i <= n,
            map.entries() == crate::strmap::apply_changes(start, all.take(i as int)),
        decreases n - i,
    {
        proof {
            let next = all.take(i as int + 1);
            assert(next.drop_last() =~= all.take(i as int));
            assert(next.last() == all[i as int]);
        }
        let key = changes.key_at(i).clone();
        match changes.value_at(i) {
            Some(value) => {
                map.insert(key, value.clone());
            },
            None => {
                map.remove(&key);
            },
        }
        i += 1;
    }
    assert(all.take(n as int) =~= all);
}

/// The changes as they go into a map of flagged values: each new value
/// counts as changed.
pub open spec fn flagged_changes(changes: Seq<(Seq<char>, Option<Seq<char>>)>) -> Seq<
    (Seq<char>, Option<CdView<Seq<char>>>),
> {
    Seq::new(
        changes.len(),
        |i: int|
            (
                changes[i].0,
                match changes[i].1 {
                    Some(v) => Some(CdView { value: v, dirty: true }),
                    None => None,
                },
            ),
    )
}

/// Makes the changes to a map of flagged strings, in their order.
pub fn apply_flagged_changes(map: &mut StrMap<Cd<String>>, changes: &StrMap<Option<String>>)
    ensures
        final(map).deep_view() == crate::strmap::apply_changes(
            old(map).deep_view(),
            flagged_changes(changes.deep_view()),
        ),
{
    let ghost start = map.entries();
    let ghost all = flagged_changes(changes.entries());
    let n: usize = changes.len();
    let mut i: usize = 0;
    while i < n
        invariant
            n == all.len(),
            n == changes.entries().len(),
            all == flagged_changes(changes.entries()),
            i <= n,
            map.entries() == crate::strmap::apply_changes(start, all.take(i as int)),
        decreases n - i,
    {
        proof {
            let next = all.take(i as int + 1);
            assert(next.drop_last() =~= all.take(i as int));
            assert(next.last() == all[i as int]);
        }
        let key = changes.key_at(i).clone();
        match changes.value_at(i) {
            Some(value) => {
                map.insert(key, Cd::new(value.clone()));
            },
            None => {
                map.remove(&key);
            },
        }
        i += 1;
    }
    assert(all.take(n as int) =~= all);
}

/// Whether some volume of `volumes` has the source `source`.
pub open spec fn source_in_use(volumes: Seq<(Seq<char>, Seq<char>)>, source: Seq<char>) -> bool {
    exists|i: int| 0 <= i < volumes.len() && (#[trigger] volumes[i]).1 == source
}

/// Whether some volume of the map has the source `source`.
pub fn source_used(volumes: &StrMap<String>, source: &String) -> (r: bool)
    ensures
        r == source_in_use(volumes.deep_view(), source@),
{
    let n: usize = volumes.len();
    let mut i: usize = 0;
    while i < n
        invariant
            n == volumes.entries().len(),
            i <= n,
            forall|j: int| 0 <= j < i ==> (#[trigger] volumes.entries()[j]).1 != source@,
        decreases n - i,
    {
        if *volumes.value_at(i) == *source {
            assert(volumes.entries()[i as int].1 == source@);
            return true;
        }
        i += 1;
    }
    false
}

/// The data that goes when the volume at `target` is removed: the place of
/// its source, if the caller asked for the data to be deleted and no volume
/// that stays has the same source.
pub open spec fn data_to_delete(
    volumes: Seq<(Seq<char>, Seq<char>)>,
    target: Seq<char>,
    delete_data: bool,
    data_dir: Seq<char>,
) -> Option<Seq<char>> {
    match lookup(volumes, target) {
        Some(source) => if delete_data && !source_in_use(del(volumes, target), source) {
            Some(volume_path(data_dir, source))
        } else {
            None
        },
        None => None,
    }
}

/// Data is deleted with a volume only where the caller asked for it, the
/// volume was there, and none of the volumes that stay has the same source.
pub proof fn lemma_volume_data_policy(
    volumes: Seq<(Seq<char>, Seq<char>)>,
    target: Seq<char>,
    delete_data: bool,
    data_dir: Seq<char>,
)
    ensures
        data_to_delete(volumes, target, delete_data, data_dir) is Some ==> {
            &&& delete_data
            &&& has_key(volumes, target)
            &&& forall|i: int|
                0 <= i < del(volumes, target).len() ==> (#[trigger] del(volumes, target)[i]).1
                    != lookup(volumes, target).unwrap()
            &&& data_to_delete(volumes, target, delete_data, data_dir) == Some(
                volume_path(data_dir, lookup(volumes, target).unwrap()),
            )
        },
        !delete_data ==> data_to_delete(volumes, target, delete_data, data_dir) is None,
{
}

impl DaemonState {
    /// Asks for the container to be deleted when updates are next applied.
    pub fn container_delete(&mut self, container_name: &Option<String>)
        ensures
            final(self)@ == with_container_changed(
                old(self)@,
                container_name.deep_view(),
                |c: ContainerInfoView| ContainerInfoView { pending_removal: true, ..c },
            ),
    {
        match self.container_mut(container_name) {
            Some(container) => {
                container.update().pending_removal = true;
            },
            None => {},
        }
    }

    /// Sets or unsets the entrypoint of the container.
    pub fn container_set_entrypoint(
        &mut self,
        entrypoint: Option<String>,
        container_name: &Option<String>,
    )
        ensures
            final(self)@ == with_container_changed(
                old(self)@,
                container_name.deep_view(),
                |c: ContainerInfoView|
                    ContainerInfoView {
                        config: ContainerConfigView {
                            entrypoint: entrypoint.deep_view(),
                            ..c.config
                        },
                        ..c
                    },
            ),
    {
        match self.container_mut(container_name) {
            Some(container) => {
                container.update().config.entrypoint = entrypoint;
            },
            None => {},
        }
    }

    /// Sets or unsets the command of the container.
    pub fn container_set_command(
        &mut self,
        command: Option<Vec<String>>,
        container_name: &Option<String>,
    )
        ensures
            final(self)@ == with_container_changed(
                old(self)@,
                container_name.deep_view(),
                |c: ContainerInfoView|
                    ContainerInfoView {
                        config: ContainerConfigView { command: command.deep_view(), ..c.config },
                        ..c
                    },
            ),
    {
        match self.container_mut(container_name) {
            Some(container) => {
                container.update().config.command = command;
            },
            None => {},
        }
    }

    /// Sets or unsets the network of the container.
    pub fn container_network_set(
        &mut self,
        network_name: Option<String>,
        container_name: &Option<String>,
    )
        ensures
            final(self)@ == with_container_changed(
                old(self)@,
                container_name.deep_view(),
                |c: ContainerInfoView|
                    ContainerInfoView {
                        config: ContainerConfigView {
                            network: network_name.deep_view(),
                            ..c.config
                        },
                        ..c
                    },
            ),
    {
        match self.container_mut(container_name) {
            Some(container) => {
                container.update().config.network = network_name;
            },
            None => {},
        }
    }

    /// Sets the image of the container, and whether it is pulled. Where the
    /// slot is empty, a new container with this image is put into it.
    pub fn container_image_set(
        &mut self,
        image: String,
        container_name: Option<String>,
        no_pull: bool,
    )
        ensures
            final(self)@ == with_slot(
                old(self)@,
                container_name.deep_view(),
                changed(
                    match slot(old(self)@, container_name.deep_view()) {
                        Some(c) => ContainerInfoView {
                            config: ContainerConfigView { image: image@, ..c.value.config },
                            pull_image: !no_pull,
                            ..c.value
                        },
                        None => ContainerInfoView {
                            pull_image: !no_pull,
                            ..fresh_container(image@)
                        },
                    },
                ),
            ),
    {
        match self.container_mut(&container_name) {
            Some(container) => {
                let info = container.update();
                info.config.image = image;
                info.pull_image = !no_pull;
                return ;
            },
            None => {},
        }
        let mut new_container = ContainerInfo::new(image);
        new_container.pull_image = !no_pull;
        match container_name {
            Some(name) => {
                self.named_containers.insert(name, Cd::new(new_container));
            },
            None => {
                self.default_container = Some(Cd::new(new_container));
            },
        }
    }

    /// The image of the container, if the slot holds one.
    pub fn container_image_get(&self, container_name: &Option<String>) -> (r: Option<String>)
        ensures
            r.deep_view() == match slot(self@, container_name.deep_view()) {
                Some(c) => Some(c.value.config.image),
                None => None,
            },
    {
        match self.container(container_name) {
            Some(container) => Some(container.get().config.image.clone()),
            None => None,
        }
    }
}

impl DaemonState {
    /// The value stored under `key` in the unit's key-value store.
    pub fn unit_kv_get(&self, key: &String) -> (r: Option<String>)
        ensures
            r.deep_view() == match lookup(self@.kv, key@) {
                Some(v) => Some(v.value),
                None => None,
            },
    {
        match self.kv.get(key) {
            Some(value) => Some(value.get().clone()),
            None => None,
        }
    }

    /// Makes the changes to the unit's key-value store, in their order: a
    /// change with a value stores it, one without deletes the key.
    pub fn unit_kv_set(&mut self, data: &StrMap<Option<String>>)
        ensures
            final(self)@ == (DaemonStateView {
                kv: crate::strmap::apply_changes(
                    old(self)@.kv,
                    flagged_changes(data.deep_view()),
                ),
                ..old(self)@
            }),
    {
        apply_flagged_changes(&mut self.kv, data);
    }

    /// Every key of the unit's key-value store with its value.
    pub fn unit_kv_get_all(&self) -> (r: Vec<(String, String)>)
        ensures
            r.deep_view() == plain_values(self@.kv),
    {
        flagged_string_pairs(&self.kv)
    }

    /// Every key of the cached charm configuration with its value as JSON
    /// text.
    pub fn get_config(&self) -> (r: Vec<(String, String)>)
        ensures
            r.deep_view() == plain_values(self@.charm_config),
    {
        flagged_string_pairs(&self.charm_config)
    }

    /// The value of one environment variable of the container.
    pub fn container_env_get(&self, key: &String, container_name: &Option<String>) -> (r: Option<
        String,
    >)
        ensures
            r.deep_view() == match slot(self@, container_name.deep_view()) {
                Some(c) => lookup(c.value.config.env_vars, key@),
                None => None,
            },
    {
        match self.container(container_name) {
            Some(container) => match container.get().config.env_vars.get(key) {
                Some(value) => Some(value.clone()),
                None => None,
            },
            None => None,
        }
    }

    /// Every environment variable of the container with its value. The
    /// answer is a stream, so the caller must have said that it takes more
    /// than one reply.
    pub fn container_env_get_all(&self, wants_more: bool, container_name: &Option<String>) -> (r:
        Result<Vec<(String, String)>, ValidationError>)
        ensures
            match r {
                Ok(pairs) => wants_more && pairs.deep_view() == match slot(
                    self@,
                    container_name.deep_view(),
                ) {
                    Some(c) => c.value.config.env_vars,
                    None => Seq::empty(),
                },
                Err(e) => !wants_more && e@ == crate::error::ValidationErrorView::RequiresMore,
            },
    {
        if !wants_more {
            return Err(ValidationError::RequiresMore);
        }
        match self.container(container_name) {
            Some(container) => Ok(string_pairs(&container.get().config.env_vars)),
            None => {
                let pairs: Vec<(String, String)> = Vec::new();
                assert(pairs.deep_view() =~= Seq::empty());
                Ok(pairs)
            },
        }
    }

    /// Makes the changes to the environment of the container, in their
    /// order: a change with a value sets the variable, one without unsets
    /// it. Without any change the container is not touched.
    pub fn container_env_set(
        &mut self,
        vars: &StrMap<Option<String>>,
        container_name: &Option<String>,
    )
        ensures
            final(self)@ == (if vars.deep_view().len() > 0 {
                with_container_changed(
                    old(self)@,
                    container_name.deep_view(),
                    |c: ContainerInfoView|
                        ContainerInfoView {
                            config: ContainerConfigView {
                                env_vars: crate::strmap::apply_changes(
                                    c.config.env_vars,
                                    vars.deep_view(),
                                ),
                                ..c.config
                            },
                            ..c
                        },
                )
            } else {
                old(self)@
            }),
    {
        if vars.len() > 0 {
            match self.container_mut(container_name) {
                Some(container) => {
                    apply_string_changes(&mut container.update().config.env_vars, vars);
                },
                None => {},
            }
        }
    }
}

impl DaemonState {
    /// Mounts `source` at the path `target` of the container. A volume that
    /// is mounted there already gives way.
    pub fn container_volume_add(
        &mut self,
        source: String,
        target: String,
        container_name: &Option<String>,
    )
        ensures
            final(self)@ == with_container_changed(
                old(self)@,
                container_name.deep_view(),
                |c: ContainerInfoView|
                    ContainerInfoView {
                        config: ContainerConfigView {
                            volumes: put(c.config.volumes, target@, source@),
                            ..c.config
                        },
                        ..c
                    },
            ),
    {
        match self.container_mut(container_name) {
            Some(container) => {
                container.update().config.volumes.insert(target, source);
            },
            None => {},
        }
    }

    /// Takes the volume at `target` out of the container. Returns the place
    /// on the host whose data is to be deleted with it: there is one only
    /// where the volume was there, `delete_data` is set and no other volume
    /// of the container has the same source.
    pub fn container_volume_remove(
        &mut self,
        target: &String,
        delete_data: bool,
        container_name: &Option<String>,
        data_dir: &str,
    ) -> (r: Option<String>)
        ensures
            final(self)@ == with_container_changed(
                old(self)@,
                container_name.deep_view(),
                |c: ContainerInfoView|
                    ContainerInfoView {
                        config: ContainerConfigView {
                            volumes: del(c.config.volumes, target@),
                            ..c.config
                        },
                        ..c
                    },
            ),
            r.deep_view() == match slot(old(self)@, container_name.deep_view()) {
                Some(c) => data_to_delete(c.value.config.volumes, target@, delete_data, data_dir@),
                None => None,
            },
    {
        match self.container_mut(container_name) {
            Some(container) => {
                let volumes = &mut container.update().config.volumes;
                match volumes.remove(target) {
                    Some(source) => {
                        if delete_data && !source_used(volumes, &source) {
                            Some(resolve_volume_source(data_dir, source.as_str()))
                        } else {
                            None
                        }
                    },
                    None => None,
                }
            },
            None => None,
        }
    }

    /// The volumes of the container, each as the pair of its target and its
    /// source.
    pub fn container_volume_get_all(&self, container_name: &Option<String>) -> (r: Vec<
        (String, String),
    >)
        ensures
            r.deep_view() == match slot(self@, container_name.deep_view()) {
                Some(c) => c.value.config.volumes,
                None => Seq::empty(),
            },
    {
        match self.container(container_name) {
            Some(container) => string_pairs(&container.get().config.volumes),
            None => {
                let pairs: Vec<(String, String)> = Vec::new();
                assert(pairs.deep_view() =~= Seq::empty());
                pairs
            },
        }
    }
}

impl DaemonState {
    /// Publishes the port `container_port` of the container as `host_port`
    /// of the host. The numbers must be port numbers, and the binding must
    /// not conflict with one that the container has: else the request is
    /// refused and nothing changes. A binding that is there already is
    /// accepted again.
    pub fn container_port_add(
        &mut self,
        host_port: i64,
        container_port: i64,
        protocol: String,
        container_name: &Option<String>,
    ) -> (r: Result<(), ValidationError>)
        ensures
            match slot(old(self)@, container_name.deep_view()) {
                None => r is Ok && final(self)@ == old(self)@,
                Some(c) => match (port_of(host_port as int), port_of(container_port as int)) {
                    (Some(h), Some(p)) => {
                        let b = PortBindingView {
                            host_port: h,
                            container_port: p,
                            protocol: protocol@,
                        };
                        let ports = c.value.config.ports;
                        if has_conflict(ports, b) {
                            &&& r matches Err(e)
                            &&& e@ == (crate::error::ValidationErrorView::PortConflict {
                                offered: b,
                                existing: ports[first_conflict(ports, b)],
                            })
                            &&& final(self)@ == old(self)@
                        } else {
                            &&& r is Ok
                            &&& final(self)@ == with_slot(
                                old(self)@,
                                container_name.deep_view(),
                                changed(
                                    ContainerInfoView {
                                        config: ContainerConfigView {
                                            ports: with_binding(ports, b),
                                            ..c.value.config
                                        },
                                        ..c.value
                                    },
                                ),
                            )
                        }
                    },
                    _ => r matches Err(e) && e@ == crate::error::ValidationErrorView::InvalidPort
                        && final(self)@ == old(self)@,
                },
            },
    {
        if self.container(container_name).is_none() {
            return Ok(());
        }
        let host = match port_number(host_port) {
            Some(port) => port,
            None => {
                return Err(ValidationError::InvalidPort);
            },
        };
        let inner = match port_number(container_port) {
            Some(port) => port,
            None => {
                return Err(ValidationError::InvalidPort);
            },
        };
        let binding = PortBinding { host_port: host, container_port: inner, protocol };
        match self.container(container_name) {
            Some(container) => {
                let ports = &container.get().config.ports;
                match ports.conflict_with(&binding) {
                    Some(i) => {
                        return Err(
                            ValidationError::PortConflict {
                                offered: binding,
                                existing: ports.get(i).clone(),
                            },
                        );
                    },
                    None => {},
                }
            },
            None => {},
        }
        match self.container_mut(container_name) {
            Some(container) => {
                container.update().config.ports.insert(binding);
            },
            None => {},
        }
        Ok(())
    }

    /// Takes a port binding out of the container. The numbers must be port
    /// numbers: else the request is refused and nothing changes.
    pub fn container_port_remove(
        &mut self,
        host_port: i64,
        container_port: i64,
        protocol: String,
        container_name: &Option<String>,
    ) -> (r: Result<(), ValidationError>)
        ensures
            match slot(old(self)@, container_name.deep_view()) {
                None => r is Ok && final(self)@ == old(self)@,
                Some(c) => match (port_of(host_port as int), port_of(container_port as int)) {
                    (Some(h), Some(p)) => {
                        let b = PortBindingView {
                            host_port: h,
                            container_port: p,
                            protocol: protocol@,
                        };
                        &&& r is Ok
                        &&& final(self)@ == with_slot(
                            old(self)@,
                            container_name.deep_view(),
                            changed(
                                ContainerInfoView {
                                    config: ContainerConfigView {
                                        ports: without_binding(c.value.config.ports, b),
                                        ..c.value.config
                                    },
                                    ..c.value
                                },
                            ),
                        )
                    },
                    _ => r matches Err(e) && e@ == crate::error::ValidationErrorView::InvalidPort
                        && final(self)@ == old(self)@,
                },
            },
    {
        if self.container(container_name).is_none() {
            return Ok(());
        }
        let host = match port_number(host_port) {
            Some(port) => port,
            None => {
                return Err(ValidationError::InvalidPort);
            },
        };
        let inner = match port_number(container_port) {
            Some(port) => port,
            None => {
                return Err(ValidationError::InvalidPort);
            },
        };
        let binding = PortBinding { host_port: host, container_port: inner, protocol };
        match self.container_mut(container_name) {
            Some(container) => {
                container.update().config.ports.remove(&binding);
            },
            None => {},
        }
        Ok(())
    }

    /// Takes every port binding out of the container. A container without
    /// bindings is not touched.
    pub fn container_port_remove_all(&mut self, container_name: &Option<String>)
        ensures
            final(self)@ == match slot(old(self)@, container_name.deep_view()) {
                Some(c) => if c.value.config.ports.len() > 0 {
                    with_slot(
                        old(self)@,
                        container_name.deep_view(),
                        changed(
                            ContainerInfoView {
                                config: ContainerConfigView {
                                    ports: Seq::empty(),
                                    ..c.value.config
                                },
                                ..c.value
                            },
                        ),
                    )
                } else {
                    old(self)@
                },
                None => old(self)@,
            },
    {
        let any = match self.container(container_name) {
            Some(container) => container.get().config.ports.len() > 0,
            None => false,
        };
        if any {
            match self.container_mut(container_name) {
                Some(container) => {
                    container.update().config.ports.clear();
                },
                None => {},
            }
        }
    }

    /// The port bindings of the container. Every two of them are
    /// compatible: they are equal, or differ in protocol, or agree on
    /// neither port.
    pub fn container_port_get_all(&self, container_name: &Option<String>) -> (r: Vec<PortBinding>)
        ensures
            binding_views(r@) == match slot(self@, container_name.deep_view()) {
                Some(c) => c.value.config.ports,
                None => Seq::empty(),
            },
            crate::ports::conflict_free(binding_views(r@)),
            binding_views(r@).no_duplicates(),
    {
        let mut list: Vec<PortBinding> = Vec::new();
        match self.container(container_name) {
            Some(container) => {
                let ports = &container.get().config.ports;
                let n: usize = ports.len();
                let mut i: usize = 0;
                while i < n
                    invariant
                        n == ports.bindings().len(),
                        i <= n,
                        binding_views(list@) == ports.bindings().take(i as int),
                    decreases n - i,
                {
                    let ghost before = binding_views(list@);
                    list.push(ports.get(i).clone());
                    assert(binding_views(list@) =~= before.push(ports.bindings()[i as int]));
                    assert(ports.bindings().take(i as int + 1) =~= before.push(
                        ports.bindings()[i as int],
                    ));
                    i += 1;
                }
                assert(ports.bindings().take(n as int) =~= ports.bindings());
            },
            None => {
                assert(binding_views(list@) =~= Seq::empty());
            },
        }
        list
    }

    /// The one status that stands for the unit: see `consolidate`.
    pub fn get_juju_status(&self) -> (r: ScriptStatus)
        ensures
            r@ == consolidated(statuses_of(self@.script_statuses)),
    {
        consolidate(&self.script_statuses)
    }

    /// Records the status of a script and returns the status of the unit
    /// that follows from it, which is to be handed to the orchestrator.
    pub fn set_script_status(&mut self, script_id: String, status: ScriptStatus) -> (r:
        ScriptStatus)
        ensures
            final(self)@ == (DaemonStateView {
                script_statuses: put(old(self)@.script_statuses, script_id@, status@),
                ..old(self)@
            }),
            lookup(final(self)@.script_statuses, script_id@) == Some(status@),
            r@ == consolidated(statuses_of(final(self)@.script_statuses)),
    {
        self.script_statuses.insert(script_id, status);
        consolidate(&self.script_statuses)
    }
}

} // verus!
