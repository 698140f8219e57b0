use vstd::prelude::*;
use vstd::pervasive::strictly_cloned;
use crate::exec::ExecCommand;
use crate::keyed::{KeyedMap, view_entries, entries_map, text_map, wf_entries};
use crate::ports::{ContainerState, Port};
use crate::wait_for::WaitFor;

verus! {

/// A test dependency: an image with the defaults that make a container of it
/// usable in a test.
///
/// Each method is described by a spec function of the same name. A verified
/// implementation defines those spec functions; their default bodies say
/// nothing, so that an implementation written outside verification still
/// compiles, and then nothing about it is proved.
pub trait Image: Sized + Sync + Send {
    /// The arguments handed to the image's command.
    type Args: ImageArgs + Clone + core::fmt::Debug + Sync + Send;

    /// What `name` returns.
    closed spec fn spec_name(&self) -> Seq<char> {
        arbitrary()
    }

    /// What `tag` returns.
    closed spec fn spec_tag(&self) -> Seq<char> {
        arbitrary()
    }

    /// What `ready_conditions` returns.
    closed spec fn spec_ready_conditions(&self) -> Seq<WaitFor> {
        arbitrary()
    }

    /// What `env_vars` returns.
    closed spec fn spec_env_vars(&self) -> Seq<(String, String)> {
        arbitrary()
    }

    /// What `volumes` returns.
    closed spec fn spec_volumes(&self) -> Seq<(String, String)> {
        arbitrary()
    }

    /// What `entrypoint` returns.
    closed spec fn spec_entrypoint(&self) -> Option<String> {
        arbitrary()
    }

    /// What `expose_ports` returns.
    closed spec fn spec_expose_ports(&self) -> Seq<u16> {
        arbitrary()
    }

    /// What `exec_after_start` returns for container state `cs`.
    closed spec fn spec_exec_after_start(&self, cs: ContainerState) -> Seq<ExecCommand> {
        arbitrary()
    }

    /// The image's name, as the registry knows it.
    fn name(&self) -> (r: String)
        ensures
            r@ == self.spec_name(),
    ;

    /// The image's tag. A fixed tag keeps the tests that use it reproducible.
    fn tag(&self) -> (r: String)
        ensures
            r@ == self.spec_tag(),
    ;

    /// The conditions that a started container must meet, in this order,
    /// before it counts as ready; none means ready at once.
    fn ready_conditions(&self) -> (r: Vec<WaitFor>)
        ensures
            r@ == self.spec_ready_conditions(),
    ;

    /// Environment variables of the container, each key at most once; an
    /// image without any returns an empty list.
    fn env_vars(&self) -> (r: Vec<(String, String)>)
        ensures
            r@ == self.spec_env_vars(),
    ;

    /// Volumes of the container, as (host path, container path), each host
    /// path at most once; an image without any returns an empty list.
    fn volumes(&self) -> (r: Vec<(String, String)>)
        ensures
            r@ == self.spec_volumes(),
    ;

    /// An entrypoint in place of the image's own; `None` keeps the image's.
    fn entrypoint(&self) -> (r: Option<String>)
        ensures
            r == self.spec_entrypoint(),
    ;

    /// Internal ports to publish beyond those that the image declares.
    fn expose_ports(&self) -> (r: Vec<u16>)
        ensures
            r@ == self.spec_expose_ports(),
    ;

    /// Commands to run, in this order, once the container has started; an
    /// image that needs none returns an empty list.
    fn exec_after_start(&self, cs: ContainerState) -> (r: Vec<ExecCommand>)
        ensures
            r@ == self.spec_exec_after_start(cs),
    ;
}

/// The arguments of an image, as the words handed to its command.
pub trait ImageArgs {
    fn into_args(self) -> Vec<String>;
}

impl ImageArgs for () {
    fn into_args(self) -> Vec<String> {
        Vec::new()
    }
}

impl ImageArgs for Vec<String> {
    fn into_args(self) -> Vec<String> {
        self
    }
}

/// The address that a host alias resolves to inside the container.
#[derive(Debug, PartialEq, Eq)]
pub enum Host {
    /// An IP address, in its textual form.
    Addr(String),
    /// The host that runs the container engine.
    HostGateway,
}

/// How the engine is told what a host alias resolves to.
pub open spec fn host_text(h: Host) -> Seq<char> {
    match h {
        Host::Addr(a) => a@,
        Host::HostGateway => seq!['h', 'o', 's', 't', '-', 'g', 'a', 't', 'e', 'w', 'a', 'y'],
    }
}

impl Clone for Host {
    fn clone(&self) -> (r: Host)
        ensures
            r == *self,
    {
        match self {
            Host::Addr(a) => Host::Addr(a.clone()),
            Host::HostGateway => Host::HostGateway,
        }
    }
}

impl Host {
    /// The text that the engine takes for this address.
    pub fn to_string(&self) -> (r: String)
        ensures
            r@ == host_text(*self),
    {
        match self {
            Host::Addr(a) => a.clone(),
            Host::HostGateway => {
                let r = String::from_str("host-gateway");
                proof {
                    reveal_strlit("host-gateway");
                }
                assert(r@ =~= host_text(*self));
                r
            },
        }
    }
}

pub open spec fn opt_text(o: Option<String>) -> Option<Seq<char>> {
    match o {
        Some(s) => Some(s@),
        None => None,
    }
}

/// An override if there is one, else the default.
pub open spec fn resolved(over: Option<Seq<char>>, default: Seq<char>) -> Seq<char> {
    match over {
        Some(s) => s,
        None => default,
    }
}

/// The reference `name:tag` by which the engine knows an image.
pub open spec fn image_reference(name: Seq<char>, tag: Seq<char>) -> Seq<char> {
    name + seq![':'] + tag
}

/// The image reference of an overlay: its name override, else the image's
/// name, then `:`, then its tag override, else the image's tag.
pub fn resolve_descriptor(
    name_override: &Option<String>,
    tag_override: &Option<String>,
    name: String,
    tag: String,
) -> (r: String)
    ensures
        r@ == image_reference(
            resolved(opt_text(*name_override), name@),
            resolved(opt_text(*tag_override), tag@),
        ),
{
    let mut r = match name_override {
        Some(n) => n.clone(),
        None => name,
    };
    r.append(":");
    proof {
        reveal_strlit(":");
    }
    match tag_override {
        Some(t) => r.append(t.as_str()),
        None => r.append(tag.as_str()),
    }
    assert(r@ =~= image_reference(
        resolved(opt_text(*name_override), name@),
        resolved(opt_text(*tag_override), tag@),
    ));
    r
}

/// `first`, followed by copies of the entries of `map` in the order of
/// their keys. Entries of `first` are not merged with those of `map`.
pub fn chain_entries(first: Vec<(String, String)>, map: &KeyedMap<String>) -> (r: Vec<(String, String)>)
    ensures
        view_entries(r@) == view_entries(first@) + map.spec_entries(),
        r@.subrange(0, first@.len() as int) == first@,
        r@ == first@ + map.spec_raw(),
        wf_entries(map.spec_entries()),
{
    let entries = map.entries();
    let mut r = first;
    let ghost first_seq = r@;
    let n = entries.len();
    let mut i: usize = 0;
    while i < n
        invariant
            n == entries@.len(),
            view_entries(entries@) == map.spec_entries(),
            i <= n,
            r@.len() == first_seq.len() + i,
            r@.subrange(0, first_seq.len() as int) == first_seq,
            r@.subrange(first_seq.len() as int, r@.len() as int) == entries@.subrange(0, i as int),
        decreases n - i,
    {
        let (k, v) = &entries[i];
        r.push((k.clone(), v.clone()));
        assert(r@.subrange(0, first_seq.len() as int) =~= first_seq);
        assert(r@.subrange(first_seq.len() as int, r@.len() as int) =~= entries@.subrange(0, i + 1));
        i = i + 1;
    }
    assert(entries@.subrange(0, n as int) =~= entries@);
    assert(r@ =~= r@.subrange(0, first_seq.len() as int) + r@.subrange(
        first_seq.len() as int,
        r@.len() as int,
    ));
    assert(r@ =~= first_seq + entries@);
    assert(view_entries(r@) =~= view_entries(first_seq) + view_entries(entries@));
    r
}

/// What an overlay holds beyond its image: the overrides and additions that
/// are resolved against the image's defaults.
pub struct Overlay<A> {
    pub args: A,
    pub name: Option<Seq<char>>,
    pub tag: Option<Seq<char>>,
    pub container_name: Option<Seq<char>>,
    pub network: Option<Seq<char>>,
    pub env_vars: Seq<(Seq<char>, String)>,
    pub hosts: Seq<(Seq<char>, Host)>,
    pub volumes: Seq<(Seq<char>, String)>,
    pub ports: Option<Seq<Port>>,
    pub privileged: bool,
    pub shm_size: Option<u64>,
}

/// `after` is `before` with environment variable `key` set to `value`: the
/// last value set for a key is the one kept, and a key set again adds no entry.
pub open spec fn sets_env_var<A>(before: Overlay<A>, after: Overlay<A>, key: Seq<char>, value: Seq<char>) -> bool {
    &&& text_map(entries_map(after.env_vars)) == text_map(entries_map(before.env_vars)).insert(key, value)
    &&& after.env_vars.len() == before.env_vars.len() + (if entries_map(before.env_vars).contains_key(key) {
        0int
    } else {
        1int
    })
    &&& after == (Overlay { env_vars: after.env_vars, ..before })
}

/// `after` is `before` with volume `orig` mounted at `dest`; a host path
/// mounted again keeps one entry, with the last destination.
pub open spec fn sets_volume<A>(before: Overlay<A>, after: Overlay<A>, orig: Seq<char>, dest: Seq<char>) -> bool {
    &&& text_map(entries_map(after.volumes)) == text_map(entries_map(before.volumes)).insert(orig, dest)
    &&& after.volumes.len() == before.volumes.len() + (if entries_map(before.volumes).contains_key(orig) {
        0int
    } else {
        1int
    })
    &&& after == (Overlay { volumes: after.volumes, ..before })
}

/// An image with user overrides on top of its defaults. Each `with_`
/// method returns a new overlay that differs from this one in one setting.
#[derive(Debug)]
pub struct RunnableImage<I: Image> {
    image: I,
    image_args: I::Args,
    image_name: Option<String>,
    image_tag: Option<String>,
    container_name: Option<String>,
    network: Option<String>,
    env_vars: KeyedMap<String>,
    hosts: KeyedMap<Host>,
    volumes: KeyedMap<String>,
    ports: Option<Vec<Port>>,
    privileged: bool,
    shm_size: Option<u64>,
}

impl<I: Image> View for RunnableImage<I> {
    type V = Overlay<I::Args>;

    closed spec fn view(&self) -> Overlay<I::Args> {
        Overlay {
            args: self.image_args,
            name: opt_text(self.image_name),
            tag: opt_text(self.image_tag),
            container_name: opt_text(self.container_name),
            network: opt_text(self.network),
            env_vars: self.env_vars.spec_entries(),
            hosts: self.hosts.spec_entries(),
            volumes: self.volumes.spec_entries(),
            ports: match self.ports {
                Some(p) => Some(p@),
                None => None,
            },
            privileged: self.privileged,
            shm_size: self.shm_size,
        }
    }
}

impl<I: Image> RunnableImage<I> {
    /// The image under the overlay.
    pub closed spec fn spec_image(&self) -> I {
        self.image
    }

    /// An overlay with arguments `args` and no override.
    pub open spec fn new_overlay(args: I::Args) -> Overlay<I::Args> {
        Overlay {
            args,
            name: None,
            tag: None,
            container_name: None,
            network: None,
            env_vars: Seq::<(Seq<char>, String)>::empty(),
            hosts: Seq::<(Seq<char>, Host)>::empty(),
            volumes: Seq::<(Seq<char>, String)>::empty(),
            ports: None,
            privileged: false,
            shm_size: None,
        }
    }

    /// `image` with `args` and no override.
    pub fn new(image: I, args: I::Args) -> (r: RunnableImage<I>)
        ensures
            r.spec_image() == image,
            r@ == Self::new_overlay(args),
    {
        RunnableImage {
            image,
            image_args: args,
            image_name: None,
            image_tag: None,
            container_name: None,
            network: None,
            env_vars: KeyedMap::new(),
            hosts: KeyedMap::new(),
            volumes: KeyedMap::new(),
            ports: None,
            privileged: false,
            shm_size: None,
        }
    }

    /// The image under the overlay.
    pub fn image(&self) -> (r: &I)
        ensures
            *r == self.spec_image(),
    {
        &self.image
    }

    /// The image's arguments.
    pub fn args(&self) -> (r: &I::Args)
        ensures
            *r == self@.args,
    {
        &self.image_args
    }

    /// The network to attach the container to, if set.
    pub fn network(&self) -> (r: &Option<String>)
        ensures
            opt_text(*r) == self@.network,
    {
        &self.network
    }

    /// The name to give the container, if set.
    pub fn container_name(&self) -> (r: &Option<String>)
        ensures
            opt_text(*r) == self@.container_name,
    {
        &self.container_name
    }

    /// The image's environment variables, then the overlay's in the order of
    /// their keys. A key set in both appears twice; the engine applies them in
    /// this order.
    pub fn env_vars(&self) -> (r: Vec<(String, String)>)
        ensures
            view_entries(r@) == view_entries(self.spec_image().spec_env_vars()) + self@.env_vars,
            r@.subrange(0, self.spec_image().spec_env_vars().len() as int) == self.spec_image().spec_env_vars(),
            wf_entries(self@.env_vars),
    {
        chain_entries(self.image.env_vars(), &self.env_vars)
    }

    /// The host aliases, in the order of their names.
    pub fn hosts(&self) -> (r: &Vec<(String, Host)>)
        ensures
            view_entries(r@) == self@.hosts,
            wf_entries(self@.hosts),
    {
        self.hosts.entries()
    }

    /// The image's volumes, then the overlay's in the order of their host
    /// paths. A path set in both appears twice.
    pub fn volumes(&self) -> (r: Vec<(String, String)>)
        ensures
            view_entries(r@) == view_entries(self.spec_image().spec_volumes()) + self@.volumes,
            r@.subrange(0, self.spec_image().spec_volumes().len() as int) == self.spec_image().spec_volumes(),
            wf_entries(self@.volumes),
    {
        chain_entries(self.image.volumes(), &self.volumes)
    }

    /// The requested port bindings; none means that every exposed port is
    /// published on a port of the engine's choice.
    pub fn ports(&self) -> (r: &Option<Vec<Port>>)
        ensures
            self@.ports == (match *r {
                Some(p) => Some(p@),
                None => None,
            }),
    {
        &self.ports
    }

    /// Whether the container runs privileged.
    pub fn privileged(&self) -> (r: bool)
        ensures
            r == self@.privileged,
    {
        self.privileged
    }

    /// Shared memory size in bytes, if set.
    pub fn shm_size(&self) -> (r: Option<u64>)
        ensures
            r == self@.shm_size,
    {
        self.shm_size
    }

    /// The image's entrypoint override.
    pub fn entrypoint(&self) -> (r: Option<String>)
        ensures
            r == self.spec_image().spec_entrypoint(),
    {
        self.image.entrypoint()
    }

    /// The image reference of this overlay: its name override, else the
    /// image's name, then `:`, then its tag override, else the image's tag.
    pub open spec fn spec_descriptor(&self) -> Seq<char> {
        image_reference(
            resolved(self@.name, self.spec_image().spec_name()),
            resolved(self@.tag, self.spec_image().spec_tag()),
        )
    }

    /// The image reference, `name:tag`, each part overridden where the
    /// overlay says so. Never empty.
    pub fn descriptor(&self) -> (r: String)
        ensures
            r@ == self.spec_descriptor(),
            r@.len() >= 1,
    {
        let name = self.image.name();
        let tag = self.image.tag();
        resolve_descriptor(&self.image_name, &self.image_tag, name, tag)
    }

    /// The image's readiness conditions, in order.
    pub fn ready_conditions(&self) -> (r: Vec<WaitFor>)
        ensures
            r@ == self.spec_image().spec_ready_conditions(),
    {
        self.image.ready_conditions()
    }

    /// The image's extra ports to publish.
    pub fn expose_ports(&self) -> (r: Vec<u16>)
        ensures
            r@ == self.spec_image().spec_expose_ports(),
    {
        self.image.expose_ports()
    }

    /// The image's commands to run after start, in its order.
    pub fn exec_after_start(&self, cs: ContainerState) -> (r: Vec<ExecCommand>)
        ensures
            r@ == self.spec_image().spec_exec_after_start(cs),
    {
        self.image.exec_after_start(cs)
    }

    /// This overlay with the image's arguments replaced.
    pub fn with_args(self, args: I::Args) -> (r: RunnableImage<I>)
        ensures
            r.spec_image() == self.spec_image(),
            r@ == (Overlay { args, ..self@ }),
    {
        RunnableImage { image_args: args, ..self }
    }

    /// This overlay with the image's fully qualified name
    /// (`{domain}/{owner}/{image}`) overridden.
    pub fn with_name(self, name: &str) -> (r: RunnableImage<I>)
        ensures
            r.spec_image() == self.spec_image(),
            r@ == (Overlay { name: Some(name@), ..self@ }),
    {
        RunnableImage { image_name: Some(name.to_owned()), ..self }
    }

    /// This overlay with the image's tag overridden. Nothing checks that the
    /// image exists under that tag.
    pub fn with_tag(self, tag: &str) -> (r: RunnableImage<I>)
        ensures
            r.spec_image() == self.spec_image(),
            r@ == (Overlay { tag: Some(tag@), ..self@ }),
    {
        RunnableImage { image_tag: Some(tag.to_owned()), ..self }
    }

    /// This overlay with the container's name set.
    pub fn with_container_name(self, name: &str) -> (r: RunnableImage<I>)
        ensures
            r.spec_image() == self.spec_image(),
            r@ == (Overlay { container_name: Some(name@), ..self@ }),
    {
        RunnableImage { container_name: Some(name.to_owned()), ..self }
    }

    /// This overlay with the container's network set.
    pub fn with_network(self, network: &str) -> (r: RunnableImage<I>)
        ensures
            r.spec_image() == self.spec_image(),
            r@ == (Overlay { network: Some(network@), ..self@ }),
    {
        RunnableImage { network: Some(network.to_owned()), ..self }
    }

    /// This overlay with environment variable `var.0` set to `var.1`.
    pub fn with_env_var(self, var: (&str, &str)) -> (r: RunnableImage<I>)
        ensures
            r.spec_image() == self.spec_image(),
            sets_env_var(self@, r@, var.0@, var.1@),
    {
        let value = var.1.to_owned();
        let env_vars = self.env_vars.insert(var.0.to_owned(), value);
        let r = RunnableImage { env_vars, ..self };
        assert(text_map(entries_map(r@.env_vars)) =~= text_map(entries_map(self@.env_vars)).insert(var.0@, var.1@));
        r
    }

    /// This overlay with host alias `key` resolving to `value`.
    pub fn with_host(self, key: &str, value: Host) -> (r: RunnableImage<I>)
        ensures
            r.spec_image() == self.spec_image(),
            entries_map(r@.hosts) == entries_map(self@.hosts).insert(key@, value),
            r@.hosts.len() == self@.hosts.len() + (if entries_map(self@.hosts).contains_key(key@) {
                0int
            } else {
                1int
            }),
            r@ == (Overlay { hosts: r@.hosts, ..self@ }),
    {
        let hosts = self.hosts.insert(key.to_owned(), value);
        RunnableImage { hosts, ..self }
    }

    /// This overlay with host path `volume.0` mounted at `volume.1`.
    pub fn with_volume(self, volume: (&str, &str)) -> (r: RunnableImage<I>)
        ensures
            r.spec_image() == self.spec_image(),
            sets_volume(self@, r@, volume.0@, volume.1@),
    {
        let dest = volume.1.to_owned();
        let volumes = self.volumes.insert(volume.0.to_owned(), dest);
        let r = RunnableImage { volumes, ..self };
        assert(text_map(entries_map(r@.volumes)) =~= text_map(entries_map(self@.volumes)).insert(volume.0@, volume.1@));
        r
    }

    /// This overlay with `port` added to the requested bindings; the first
    /// request turns off publishing every exposed port.
    pub fn with_mapped_port(self, port: Port) -> (r: RunnableImage<I>)
        ensures
            r.spec_image() == self.spec_image(),
            r@ == (Overlay {
                ports: Some(
                    match self@.ports {
                        Some(p) => p,
                        None => Seq::<Port>::empty(),
                    }.push(port),
                ),
                ..self@
            }),
    {
        let mut ports = match self.ports {
            Some(p) => p,
            None => Vec::new(),
        };
        ports.push(port);
        RunnableImage { ports: Some(ports), ..self }
    }

    /// This overlay with the privileged flag set to `privileged`.
    pub fn with_privileged(self, privileged: bool) -> (r: RunnableImage<I>)
        ensures
            r.spec_image() == self.spec_image(),
            r@ == (Overlay { privileged, ..self@ }),
    {
        RunnableImage { privileged, ..self }
    }

    /// This overlay with the shared memory size set to `bytes`.
    pub fn with_shm_size(self, bytes: u64) -> (r: RunnableImage<I>)
        ensures
            r.spec_image() == self.spec_image(),
            r@ == (Overlay { shm_size: Some(bytes), ..self@ }),
    {
        RunnableImage { shm_size: Some(bytes), ..self }
    }
}

fn copy_text(o: &Option<String>) -> (r: Option<String>)
    ensures
        r == *o,
{
    match o {
        Some(s) => Some(s.clone()),
        None => None,
    }
}

fn copy_ports(ports: &Option<Vec<Port>>) -> (r: Option<Vec<Port>>)
    ensures
        match (*ports, r) {
            (Some(p), Some(q)) => q@ == p@,
            (None, None) => true,
            _ => false,
        },
{
    match ports {
        None => None,
        Some(p) => {
            let mut q: Vec<Port> = Vec::new();
            let n = p.len();
            let mut i: usize = 0;
            while i < n
                invariant
                    n == p@.len(),
                    i <= n,
                    q@ == p@.subrange(0, i as int),
                decreases n - i,
            {
                q.push(p[i]);
                assert(q@ =~= p@.subrange(0, i + 1));
                i = i + 1;
            }
            assert(q@ =~= p@);
            Some(q)
        },
    }
}

impl<I: Image + Clone> Clone for RunnableImage<I> {
    /// A copy with its own maps: every setting of the overlay is kept, and the
    /// image and its arguments are copied by their own `clone`.
    fn clone(&self) -> (r: RunnableImage<I>)
        ensures
            strictly_cloned(self.spec_image(), r.spec_image()),
            strictly_cloned(self@.args, r@.args),
            r@ == (Overlay { args: r@.args, ..self@ }),
    {
        let env_vars = self.env_vars.copy_with(|v: &String| -> (c: String) ensures c == *v { v.clone() });
        let hosts = self.hosts.copy_with(|v: &Host| -> (c: Host) ensures c == *v { v.clone() });
        let volumes = self.volumes.copy_with(|v: &String| -> (c: String) ensures c == *v { v.clone() });
        proof {
            env_vars.entries_match();
            self.env_vars.entries_match();
            hosts.entries_match();
            self.hosts.entries_match();
            volumes.entries_match();
            self.volumes.entries_match();
        }
        RunnableImage {
            image: self.image.clone(),
            image_args: self.image_args.clone(),
            image_name: copy_text(&self.image_name),
            image_tag: copy_text(&self.image_tag),
            container_name: copy_text(&self.container_name),
            network: copy_text(&self.network),
            env_vars,
            hosts,
            volumes,
            ports: copy_ports(&self.ports),
            privileged: self.privileged,
            shm_size: self.shm_size,
        }
    }
}

impl<I: Image> From<(I, I::Args)> for RunnableImage<I> {
    /// `parts.0` with arguments `parts.1` and no override.
    fn from(parts: (I, I::Args)) -> (r: RunnableImage<I>)
        ensures
            r.spec_image() == parts.0,
            r@ == Self::new_overlay(parts.1),
    {
        RunnableImage::new(parts.0, parts.1)
    }
}

impl<I: Image> From<I> for RunnableImage<I> where I::Args: Default {
    /// `image` with its default arguments and no override.
    fn from(image: I) -> (r: RunnableImage<I>)
        ensures
            r.spec_image() == image,
            r@ == Self::new_overlay(r@.args),
    {
        RunnableImage::new(image, I::Args::default())
    }
}

impl<I: Image> vstd::std_specs::convert::FromSpecImpl<I> for RunnableImage<I> where I::Args: Default {
    /// The result is described by the `ensures` of `from` alone.
    open spec fn obeys_from_spec() -> bool {
        false
    }

    open spec fn from_spec(v: I) -> RunnableImage<I> {
        arbitrary()
    }
}

impl<I: Image> vstd::std_specs::convert::FromSpecImpl<(I, I::Args)> for RunnableImage<I> {
    /// The result is described by the `ensures` of `from` alone.
    open spec fn obeys_from_spec() -> bool {
        false
    }

    open spec fn from_spec(v: (I, I::Args)) -> RunnableImage<I> {
        arbitrary()
    }
}

/// Setting an environment variable twice keeps one entry for it, holding the
/// second value: the second setting adds no entry, the first adds one only
/// where the key was new.
pub proof fn env_var_last_write_wins<A>(
    base: Overlay<A>,
    once: Overlay<A>,
    twice: Overlay<A>,
    key: Seq<char>,
    first: Seq<char>,
    second: Seq<char>,
)
    requires
        sets_env_var(base, once, key, first),
        sets_env_var(once, twice, key, second),
    ensures
        text_map(entries_map(twice.env_vars)) == text_map(entries_map(base.env_vars)).insert(key, second),
        text_map(entries_map(twice.env_vars))[key] == second,
        twice.env_vars.len() == once.env_vars.len(),
        twice.env_vars.len() == base.env_vars.len() + (if entries_map(base.env_vars).contains_key(key) {
            0int
        } else {
            1int
        }),
{
    assert(text_map(entries_map(once.env_vars)).contains_key(key));
    assert(text_map(entries_map(twice.env_vars)) =~= text_map(entries_map(base.env_vars)).insert(key, second));
}

/// Two overlays derived from one base, one with a tag override and one with
/// a name override, each resolve their image reference with their own
/// override and the base's other setting, and keep every other setting of
/// the base; the base itself resolves as it did.
pub proof fn derived_overlays_keep_base<A>(
    base: Overlay<A>,
    tagged: Overlay<A>,
    named: Overlay<A>,
    tag: Seq<char>,
    name: Seq<char>,
    image_name: Seq<char>,
    image_tag: Seq<char>,
)
    requires
        tagged == (Overlay { tag: Some(tag), ..base }),
        named == (Overlay { name: Some(name), ..base }),
    ensures
        image_reference(resolved(tagged.name, image_name), resolved(tagged.tag, image_tag))
            == image_reference(resolved(base.name, image_name), tag),
        image_reference(resolved(named.name, image_name), resolved(named.tag, image_tag))
            == image_reference(name, resolved(base.tag, image_tag)),
        (Overlay { tag: base.tag, ..tagged }) == base,
        (Overlay { name: base.name, ..named }) == base,
{
}

} // verus!
