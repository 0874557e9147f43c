//! The desired state of one container, and the wrapper that remembers
//! whether it has changed since it was last applied.

use crate::ports::{PortBindingView, PortSet};
use crate::strmap::StrMap;
use crate::text::starts_with_char;
use vstd::prelude::*;

verus! {

/// A value together with a flag that says whether it has been changed since
/// the flag was last cleared.
#[derive(Debug)]
pub struct Cd<T> {
    inner: T,
    dirty: bool,
}

/// The model of a `Cd`: the model of the value, and the flag.
pub struct CdView<T> {
    pub value: T,
    pub dirty: bool,
}

impl<T: DeepView> DeepView for Cd<T> {
    type V = CdView<T::V>;

    closed spec fn deep_view(&self) -> CdView<T::V> {
        CdView { value: self.inner.deep_view(), dirty: self.dirty }
    }
}

impl<T: DeepView> Cd<T> {
    /// Wraps a new value. It counts as changed: nothing has been applied
    /// yet.
    pub fn new(inner: T) -> (r: Self)
        ensures
            r.deep_view() == (CdView { value: inner.deep_view(), dirty: true }),
    {
        Cd { inner, dirty: true }
    }

    /// Wraps a value that is known to be applied already.
    pub fn new_clean(inner: T) -> (r: Self)
        ensures
            r.deep_view() == (CdView { value: inner.deep_view(), dirty: false }),
    {
        Cd { inner, dirty: false }
    }

    /// Whether the value is unchanged since the flag was last cleared.
    pub fn is_clean(&self) -> (r: bool)
        ensures
            r == !self.deep_view().dirty,
    {
        !self.dirty
    }

    /// Clears the flag and leaves the value alone.
    pub fn clean(&mut self)
        ensures
            final(self).deep_view() == (CdView { value: old(self).deep_view().value, dirty: false }),
    {
        self.dirty = false;
    }

    /// Reads the value. The flag stays as it is.
    pub fn get(&self) -> (r: &T)
        ensures
            r.deep_view() == self.deep_view().value,
    {
        &self.inner
    }

    /// Hands the value out for a change and sets the flag.
    pub fn update(&mut self) -> (r: &mut T)
        ensures
            r.deep_view() == old(self).deep_view().value,
            final(self).deep_view() == (CdView { value: final(r).deep_view(), dirty: true }),
    {
        self.dirty = true;
        &mut self.inner
    }

    /// Hands the value out for bookkeeping that is no change of what is
    /// desired. The flag stays as it is.
    pub fn untracked(&mut self) -> (r: &mut T)
        ensures
            r.deep_view() == old(self).deep_view().value,
            final(self).deep_view() == (CdView {
                value: final(r).deep_view(),
                dirty: old(self).deep_view().dirty,
            }),
    {
        &mut self.inner
    }

    /// Unwraps the value.
    pub fn into_inner(self) -> (r: T)
        ensures
            r.deep_view() == self.deep_view().value,
    {
        self.inner
    }
}

/// What a container is made from.
#[derive(Debug)]
pub struct ContainerConfig {
    pub image: String,
    pub entrypoint: Option<String>,
    pub command: Option<Vec<String>>,
    pub env_vars: StrMap<String>,
    /// From the target path inside the container to the source on the host.
    pub volumes: StrMap<String>,
    pub ports: PortSet,
    pub network: Option<String>,
}

/// The model of a `ContainerConfig`.
pub struct ContainerConfigView {
    pub image: Seq<char>,
    pub entrypoint: Option<Seq<char>>,
    pub command: Option<Seq<Seq<char>>>,
    pub env_vars: Seq<(Seq<char>, Seq<char>)>,
    pub volumes: Seq<(Seq<char>, Seq<char>)>,
    pub ports: Seq<PortBindingView>,
    pub network: Option<Seq<char>>,
}

impl DeepView for ContainerConfig {
    type V = ContainerConfigView;

    open spec fn deep_view(&self) -> ContainerConfigView {
        ContainerConfigView {
            image: self.image@,
            entrypoint: self.entrypoint.deep_view(),
            command: self.command.deep_view(),
            env_vars: self.env_vars.deep_view(),
            volumes: self.volumes.deep_view(),
            ports: self.ports.deep_view(),
            network: self.network.deep_view(),
        }
    }
}

impl View for ContainerConfig {
    type V = ContainerConfigView;

    open spec fn view(&self) -> ContainerConfigView {
        self.deep_view()
    }
}

/// The model of a configuration that names an image and nothing else.
pub open spec fn bare_config(image: Seq<char>) -> ContainerConfigView {
    ContainerConfigView {
        image,
        entrypoint: None,
        command: None,
        env_vars: Seq::empty(),
        volumes: Seq::empty(),
        ports: Seq::empty(),
        network: None,
    }
}

impl ContainerConfig {
    /// A configuration that names an image and nothing else.
    pub fn new(image: String) -> (r: Self)
        ensures
            r@ == bare_config(image@),
    {
        ContainerConfig {
            image,
            entrypoint: None,
            command: None,
            env_vars: StrMap::new(),
            volumes: StrMap::new(),
            ports: PortSet::new(),
            network: None,
        }
    }
}

/// The desired state of a container and what binds it to the container
/// that runs for it.
#[derive(Debug)]
pub struct ContainerInfo {
    pub config: ContainerConfig,
    /// The id of the running container, if one was started for this
    /// configuration.
    pub id: Option<String>,
    /// Whether the image is pulled before the container is created.
    pub pull_image: bool,
    /// Whether the container is to be deleted when updates are next applied.
    pub pending_removal: bool,
}

/// The model of a `ContainerInfo`.
pub struct ContainerInfoView {
    pub config: ContainerConfigView,
    pub id: Option<Seq<char>>,
    pub pull_image: bool,
    pub pending_removal: bool,
}

impl DeepView for ContainerInfo {
    type V = ContainerInfoView;

    open spec fn deep_view(&self) -> ContainerInfoView {
        ContainerInfoView {
            config: self.config.deep_view(),
            id: self.id.deep_view(),
            pull_image: self.pull_image,
            pending_removal: self.pending_removal,
        }
    }
}

impl View for ContainerInfo {
    type V = ContainerInfoView;

    open spec fn view(&self) -> ContainerInfoView {
        self.deep_view()
    }
}

/// The model of a container that was just asked for: an image, no running
/// container, the image to be pulled, nothing to remove.
pub open spec fn fresh_container(image: Seq<char>) -> ContainerInfoView {
    ContainerInfoView {
        config: bare_config(image),
        id: None,
        pull_image: true,
        pending_removal: false,
    }
}

impl ContainerInfo {
    /// A container with the given image and nothing else configured.
    pub fn new(image: String) -> (r: Self)
        ensures
            r@ == fresh_container(image@),
    {
        ContainerInfo {
            config: ContainerConfig::new(image),
            id: None,
            pull_image: true,
            pending_removal: false,
        }
    }
}

/// The text that leads from the daemon's data directory to a volume that
/// is known by a name.
pub open spec fn volume_dir_infix() -> Seq<char> {
    seq!['/', 'v', 'o', 'l', 'u', 'm', 'e', 's', '/']
}

/// Whether the source of a volume is an absolute path.
pub open spec fn is_absolute(source: Seq<char>) -> bool {
    source.len() > 0 && source[0] == '/'
}

/// The place on the host where a volume's data lies: the source itself
/// where it is an absolute path, else the directory of that name under the
/// volumes of the daemon's data directory.
pub open spec fn volume_path(data_dir: Seq<char>, source: Seq<char>) -> Seq<char> {
    if is_absolute(source) {
        source
    } else {
        data_dir + volume_dir_infix() + source
    }
}

/// Finds the place on the host where a volume's data lies.
pub fn resolve_volume_source(data_dir: &str, source: &str) -> (r: String)
    ensures
        r@ == volume_path(data_dir@, source@),
{
    if starts_with_char(source, '/') {
        source.to_owned()
    } else {
        proof {
            reveal_strlit("/volumes/");
            assert("/volumes/"@ =~= volume_dir_infix());
        }
        data_dir.to_owned().concat("/volumes/").concat(source)
    }
}

} // verus!
