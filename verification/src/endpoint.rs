use vstd::prelude::*;
use crate::error::PatliteError;

verus! {

/// One endpoint of a device, with the configuration, the interface and the
/// alternate setting under which the device offers it.
#[derive(Clone, Copy, Debug, PartialEq, Eq, Structural)]
pub struct Endpoint {
    pub config: u8,
    pub iface: u8,
    pub setting: u8,
    pub address: u8,
}

/// One alternate setting of an interface, as the device describes it.
#[derive(Clone, Debug)]
pub struct InterfaceDescriptor {
    pub interface_number: u8,
    pub setting_number: u8,
    /// The addresses of the setting's endpoints, in the device's order.
    pub endpoint_addresses: Vec<u8>,
}

/// One interface of a configuration: its alternate settings, in the device's
/// order.
#[derive(Clone, Debug)]
pub struct Interface {
    pub descriptors: Vec<InterfaceDescriptor>,
}

/// One configuration of a device: its number and its interfaces, in the
/// device's order.
#[derive(Clone, Debug)]
pub struct ConfigDescriptor {
    pub number: u8,
    pub interfaces: Vec<Interface>,
}

/// The endpoint at `address` under the given alternate setting of
/// configuration `config`.
pub open spec fn endpoint_at(config: u8, descriptor: InterfaceDescriptor, address: u8) -> Endpoint {
    Endpoint {
        config: config,
        iface: descriptor.interface_number,
        setting: descriptor.setting_number,
        address: address,
    }
}

/// The endpoints of one alternate setting, in the device's order.
pub open spec fn setting_endpoints(config: u8, descriptor: InterfaceDescriptor) -> Seq<Endpoint> {
    descriptor.endpoint_addresses@.map_values(
        |address: u8| endpoint_at(config, descriptor, address),
    )
}

/// The endpoints of a run of alternate settings, setting after setting.
pub open spec fn descriptors_endpoints(
    config: u8,
    descriptors: Seq<InterfaceDescriptor>,
) -> Seq<Endpoint> {
    descriptors.map_values(
        |descriptor: InterfaceDescriptor| setting_endpoints(config, descriptor),
    ).flatten()
}

/// The endpoints of a run of interfaces, interface after interface.
pub open spec fn interfaces_endpoints(config: u8, interfaces: Seq<Interface>) -> Seq<Endpoint> {
    interfaces.map_values(
        |interface: Interface| descriptors_endpoints(config, interface.descriptors@),
    ).flatten()
}

/// Every endpoint that a device describes: configuration after
/// configuration, and within each, interface after interface, alternate
/// setting after alternate setting, endpoint after endpoint.
pub open spec fn device_endpoints(configs: Seq<ConfigDescriptor>) -> Seq<Endpoint> {
    configs.map_values(
        |config: ConfigDescriptor| interfaces_endpoints(config.number, config.interfaces@),
    ).flatten()
}

/// Mapping one more item of a sequence adds the image of that item.
proof fn lemma_map_take_next<A, B>(items: Seq<A>, f: spec_fn(A) -> B, i: int)
    requires
        0 <= i < items.len(),
    ensures
        items.take(i + 1).map_values(f) == items.take(i).map_values(f).push(f(items[i])),
{
    assert(items.take(i + 1) =~= items.take(i).push(items[i]));
    assert(items.take(i + 1).map_values(f) =~= items.take(i).map_values(f).push(f(items[i])));
}

/// Mapping and flattening one more item of a sequence appends the image of
/// that item.
proof fn lemma_flat_map_take_next<A, B>(items: Seq<A>, f: spec_fn(A) -> Seq<B>, i: int)
    requires
        0 <= i < items.len(),
    ensures
        items.take(i + 1).map_values(f).flatten() == items.take(i).map_values(f).flatten() + f(
            items[i],
        ),
{
    lemma_map_take_next(items, f, i);
    items.take(i).map_values(f).lemma_flatten_push(f(items[i]));
}

/// Lists every endpoint that the device describes, in the device's order.
pub fn find_readable_endpoints(configs: &Vec<ConfigDescriptor>) -> (endpoints: Vec<Endpoint>)
    ensures
        endpoints@ == device_endpoints(configs@),
{
    let mut endpoints: Vec<Endpoint> = Vec::new();
    let mut c: usize = 0;
    assert(configs@.take(0) =~= Seq::<ConfigDescriptor>::empty());
    assert(device_endpoints(Seq::<ConfigDescriptor>::empty()) =~= Seq::<Endpoint>::empty());
    while c < configs.len()
        invariant
            c <= configs.len(),
            endpoints@ == device_endpoints(configs@.take(c as int)),
        decreases configs.len() - c,
    {
        let config = &configs[c];
        let ghost before_config = endpoints@;
        let mut i: usize = 0;
        assert(config.interfaces@.take(0) =~= Seq::<Interface>::empty());
        assert(interfaces_endpoints(config.number, Seq::<Interface>::empty())
            =~= Seq::<Endpoint>::empty());
        while i < config.interfaces.len()
            invariant
                i <= config.interfaces.len(),
                endpoints@ == before_config + interfaces_endpoints(
                    config.number,
                    config.interfaces@.take(i as int),
                ),
            decreases config.interfaces.len() - i,
        {
            let interface = &config.interfaces[i];
            let ghost before_interface = endpoints@;
            let mut d: usize = 0;
            assert(interface.descriptors@.take(0) =~= Seq::<InterfaceDescriptor>::empty());
            assert(descriptors_endpoints(config.number, Seq::<InterfaceDescriptor>::empty())
                =~= Seq::<Endpoint>::empty());
            while d < interface.descriptors.len()
                invariant
                    d <= interface.descriptors.len(),
                    endpoints@ == before_interface + descriptors_endpoints(
                        config.number,
                        interface.descriptors@.take(d as int),
                    ),
                decreases interface.descriptors.len() - d,
            {
                let descriptor = &interface.descriptors[d];
                let ghost before_setting = endpoints@;
                let ghost at = |address: u8| endpoint_at(config.number, *descriptor, address);
                let mut e: usize = 0;
                assert(descriptor.endpoint_addresses@.take(0).map_values(at)
                    =~= Seq::<Endpoint>::empty());
                while e < descriptor.endpoint_addresses.len()
                    invariant
                        e <= descriptor.endpoint_addresses.len(),
                        at == |address: u8| endpoint_at(config.number, *descriptor, address),
                        endpoints@ == before_setting
                            + descriptor.endpoint_addresses@.take(e as int).map_values(at),
                    decreases descriptor.endpoint_addresses.len() - e,
                {
                    proof {
                        lemma_map_take_next(descriptor.endpoint_addresses@, at, e as int);
                    }
                    endpoints.push(
                        Endpoint {
                            config: config.number,
                            iface: descriptor.interface_number,
                            setting: descriptor.setting_number,
                            address: descriptor.endpoint_addresses[e],
                        },
                    );
                    e += 1;
                }
                proof {
                    assert(descriptor.endpoint_addresses@.take(e as int)
                        =~= descriptor.endpoint_addresses@);
                    lemma_flat_map_take_next(
                        interface.descriptors@,
                        |descriptor: InterfaceDescriptor|
                            setting_endpoints(config.number, descriptor),
                        d as int,
                    );
                }
                d += 1;
            }
            proof {
                assert(interface.descriptors@.take(d as int) =~= interface.descriptors@);
                lemma_flat_map_take_next(
                    config.interfaces@,
                    |interface: Interface|
                        descriptors_endpoints(config.number, interface.descriptors@),
                    i as int,
                );
            }
            i += 1;
        }
        proof {
            assert(config.interfaces@.take(i as int) =~= config.interfaces@);
            lemma_flat_map_take_next(
                configs@,
                |config: ConfigDescriptor|
                    interfaces_endpoints(config.number, config.interfaces@),
                c as int,
            );
        }
        c += 1;
    }
    assert(configs@.take(c as int) =~= configs@);
    endpoints
}

/// Whether `endpoints[index]` is the first endpoint with the given address.
pub open spec fn is_first_at(endpoints: Seq<Endpoint>, address: u8, index: int) -> bool {
    &&& 0 <= index < endpoints.len()
    &&& endpoints[index].address == address
    &&& forall|j: int| 0 <= j < index ==> (#[trigger] endpoints[j]).address != address
}

/// Picks the endpoint with the given address: the first one, where the device
/// offers several. Position alone never decides.
pub fn find_endpoint(endpoints: &Vec<Endpoint>, address: u8) -> (found: Result<
    Endpoint,
    PatliteError,
>)
    ensures
        match found {
            Ok(endpoint) => exists|index: int|
                is_first_at(endpoints@, address, index) && endpoints@[index] == endpoint,
            Err(error) => error == PatliteError::EndpointNotFound && forall|j: int|
                0 <= j < endpoints@.len() ==> (#[trigger] endpoints@[j]).address != address,
        },
{
    let mut k: usize = 0;
    while k < endpoints.len()
        invariant
            k <= endpoints.len(),
            forall|j: int| 0 <= j < k ==> (#[trigger] endpoints@[j]).address != address,
        decreases endpoints.len() - k,
    {
        if endpoints[k].address == address {
            assert(is_first_at(endpoints@, address, k as int));
            return Ok(endpoints[k]);
        }
        k += 1;
    }
    Err(PatliteError::EndpointNotFound)
}

/// Walks what the device describes and picks the endpoint with the given
/// address.
pub fn negotiate_endpoint(configs: &Vec<ConfigDescriptor>, address: u8) -> (found: Result<
    Endpoint,
    PatliteError,
>)
    ensures
        match found {
            Ok(endpoint) => exists|index: int|
                is_first_at(device_endpoints(configs@), address, index) && device_endpoints(
                    configs@,
                )[index] == endpoint,
            Err(error) => error == PatliteError::EndpointNotFound && forall|j: int|
                0 <= j < device_endpoints(configs@).len() ==> (#[trigger] device_endpoints(
                    configs@,
                )[j]).address != address,
        },
{
    let endpoints = find_readable_endpoints(configs);
    find_endpoint(&endpoints, address)
}

/// At most one endpoint is the first with a given address, so what
/// `find_endpoint` returns is decided by its arguments.
pub proof fn lemma_first_at_unique(endpoints: Seq<Endpoint>, address: u8, a: int, b: int)
    requires
        is_first_at(endpoints, address, a),
        is_first_at(endpoints, address, b),
    ensures
        a == b,
{
    if a < b {
        assert(endpoints[a].address != address);
    } else if b < a {
        assert(endpoints[b].address != address);
    }
}

} // verus!
