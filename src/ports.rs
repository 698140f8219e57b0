use vstd::prelude::*;

verus! {

/// A requested binding of a host port to an internal port of the container.
#[derive(Clone, Copy, Debug, PartialEq, Eq, Structural)]
pub struct Port {
    pub local: u16,
    pub internal: u16,
}

impl From<(u16, u16)> for Port {
    fn from(pair: (u16, u16)) -> (r: Port) {
        Port { local: pair.0, internal: pair.1 }
    }
}

impl vstd::std_specs::convert::FromSpecImpl<(u16, u16)> for Port {
    open spec fn obeys_from_spec() -> bool {
        true
    }

    open spec fn from_spec(v: (u16, u16)) -> Port {
        Port { local: v.0, internal: v.1 }
    }
}

/// The host port bound to internal port `internal` by a list of bindings
/// `(internal, host)`; where a port is bound more than once the last binding
/// counts.
pub open spec fn bound_host_port(bindings: Seq<(u16, u16)>, internal: u16) -> Option<u16>
    decreases bindings.len(),
{
    if bindings.len() == 0 {
        None
    } else if bindings.last().0 == internal {
        Some(bindings.last().1)
    } else {
        bound_host_port(bindings.drop_last(), internal)
    }
}

/// The map from internal port to host port that a list of bindings gives.
pub open spec fn bindings_map(bindings: Seq<(u16, u16)>) -> Map<u16, u16> {
    Map::new(
        |p: u16| bound_host_port(bindings, p) is Some,
        |p: u16| bound_host_port(bindings, p)->Some_0,
    )
}

fn find_binding(bindings: &Vec<(u16, u16)>, internal: u16) -> (r: Option<u16>)
    ensures
        r == bound_host_port(bindings@, internal),
{
    let mut i: usize = bindings.len();
    assert(bindings@.subrange(0, i as int) =~= bindings@);
    while i > 0
        invariant
            i <= bindings.len(),
            bound_host_port(bindings@, internal) == bound_host_port(
                bindings@.subrange(0, i as int),
                internal,
            ),
        decreases i,
    {
        let ghost upto = bindings@.subrange(0, i as int);
        assert(upto.drop_last() =~= bindings@.subrange(0, i - 1));
        i = i - 1;
        if bindings[i].0 == internal {
            return Some(bindings[i].1);
        }
    }
    assert(bindings@.subrange(0, 0) =~= Seq::<(u16, u16)>::empty());
    None
}

/// The host ports that a started container's internal ports were published on,
/// over IPv4 and over IPv6.
#[derive(Clone, Debug)]
pub struct Ports {
    ipv4_mapping: Vec<(u16, u16)>,
    ipv6_mapping: Vec<(u16, u16)>,
}

impl Ports {
    /// Internal port to host port, over IPv4.
    pub closed spec fn ipv4_map(&self) -> Map<u16, u16> {
        bindings_map(self.ipv4_mapping@)
    }

    /// Internal port to host port, over IPv6.
    pub closed spec fn ipv6_map(&self) -> Map<u16, u16> {
        bindings_map(self.ipv6_mapping@)
    }

    /// No port published.
    pub fn new() -> (r: Ports)
        ensures
            r.ipv4_map() == Map::<u16, u16>::empty(),
            r.ipv6_map() == Map::<u16, u16>::empty(),
    {
        let r = Ports { ipv4_mapping: Vec::new(), ipv6_mapping: Vec::new() };
        assert(r.ipv4_map() =~= Map::<u16, u16>::empty());
        assert(r.ipv6_map() =~= Map::<u16, u16>::empty());
        r
    }

    /// These ports, with `internal` published on host port `host` over IPv4.
    pub fn with_ipv4_mapping(self, internal: u16, host: u16) -> (r: Ports)
        ensures
            r.ipv4_map() == self.ipv4_map().insert(internal, host),
            r.ipv6_map() == self.ipv6_map(),
    {
        let mut ipv4_mapping = self.ipv4_mapping;
        ipv4_mapping.push((internal, host));
        let r = Ports { ipv4_mapping, ipv6_mapping: self.ipv6_mapping };
        assert(r.ipv4_mapping@.drop_last() =~= self.ipv4_mapping@);
        assert(r.ipv4_map() =~= self.ipv4_map().insert(internal, host));
        r
    }

    /// These ports, with `internal` published on host port `host` over IPv6.
    pub fn with_ipv6_mapping(self, internal: u16, host: u16) -> (r: Ports)
        ensures
            r.ipv6_map() == self.ipv6_map().insert(internal, host),
            r.ipv4_map() == self.ipv4_map(),
    {
        let mut ipv6_mapping = self.ipv6_mapping;
        ipv6_mapping.push((internal, host));
        let r = Ports { ipv4_mapping: self.ipv4_mapping, ipv6_mapping };
        assert(r.ipv6_mapping@.drop_last() =~= self.ipv6_mapping@);
        assert(r.ipv6_map() =~= self.ipv6_map().insert(internal, host));
        r
    }

    /// The host port that `internal_port` was published on over IPv4, if any.
    pub fn map_to_host_port_ipv4(&self, internal_port: u16) -> (r: Option<u16>)
        ensures
            r == (if self.ipv4_map().contains_key(internal_port) {
                Some(self.ipv4_map()[internal_port])
            } else {
                None::<u16>
            }),
    {
        find_binding(&self.ipv4_mapping, internal_port)
    }

    /// The host port that `internal_port` was published on over IPv6, if any.
    pub fn map_to_host_port_ipv6(&self, internal_port: u16) -> (r: Option<u16>)
        ensures
            r == (if self.ipv6_map().contains_key(internal_port) {
                Some(self.ipv6_map()[internal_port])
            } else {
                None::<u16>
            }),
    {
        find_binding(&self.ipv6_mapping, internal_port)
    }
}

/// What the runner knows of a container once it has started.
#[derive(Debug)]
pub struct ContainerState {
    ports: Ports,
}

impl ContainerState {
    pub closed spec fn spec_ports(&self) -> Ports {
        self.ports
    }

    pub fn new(ports: Ports) -> (r: ContainerState)
        ensures
            r.spec_ports() == ports,
    {
        ContainerState { ports }
    }

    /// The published ports.
    pub fn ports(&self) -> (r: &Ports)
        ensures
            *r == self.spec_ports(),
    {
        &self.ports
    }

    /// The host port that `internal_port` was published on over IPv4. Asking
    /// for a port that was never published is a misconfiguration of the
    /// caller, hence the precondition.
    pub fn host_port_ipv4(&self, internal_port: u16) -> (r: u16)
        requires
            self.spec_ports().ipv4_map().contains_key(internal_port),
        ensures
            r == self.spec_ports().ipv4_map()[internal_port],
    {
        self.ports.map_to_host_port_ipv4(internal_port).unwrap()
    }

    /// The host port that `internal_port` was published on over IPv6. Asking
    /// for a port that was never published is a misconfiguration of the
    /// caller, hence the precondition.
    pub fn host_port_ipv6(&self, internal_port: u16) -> (r: u16)
        requires
            self.spec_ports().ipv6_map().contains_key(internal_port),
        ensures
            r == self.spec_ports().ipv6_map()[internal_port],
    {
        self.ports.map_to_host_port_ipv6(internal_port).unwrap()
    }
}

} // verus!
