use patlite_rs::{
    find_endpoint, find_readable_endpoints, negotiate_endpoint, ConfigDescriptor, Endpoint,
    Interface, InterfaceDescriptor, PatliteError,
};

fn setting(interface_number: u8, setting_number: u8, addresses: &[u8]) -> InterfaceDescriptor {
    InterfaceDescriptor { interface_number, setting_number, endpoint_addresses: addresses.to_vec() }
}

fn indicator() -> Vec<ConfigDescriptor> {
    vec![ConfigDescriptor {
        number: 1,
        interfaces: vec![Interface { descriptors: vec![setting(0, 0, &[0x81, 0x01])] }],
    }]
}

#[test]
fn walk_lists_endpoints_in_device_order() {
    let endpoints = find_readable_endpoints(&indicator());
    assert_eq!(
        endpoints,
        vec![
            Endpoint { config: 1, iface: 0, setting: 0, address: 0x81 },
            Endpoint { config: 1, iface: 0, setting: 0, address: 0x01 },
        ]
    );
}

#[test]
fn walk_covers_every_level() {
    let configs = vec![
        ConfigDescriptor {
            number: 1,
            interfaces: vec![
                Interface { descriptors: vec![setting(0, 0, &[0x02]), setting(0, 1, &[0x03, 0x83])] },
                Interface { descriptors: vec![] },
                Interface { descriptors: vec![setting(1, 0, &[])] },
            ],
        },
        ConfigDescriptor { number: 2, interfaces: vec![] },
        ConfigDescriptor {
            number: 3,
            interfaces: vec![Interface { descriptors: vec![setting(4, 5, &[0x01])] }],
        },
    ];
    let endpoints = find_readable_endpoints(&configs);
    assert_eq!(
        endpoints,
        vec![
            Endpoint { config: 1, iface: 0, setting: 0, address: 0x02 },
            Endpoint { config: 1, iface: 0, setting: 1, address: 0x03 },
            Endpoint { config: 1, iface: 0, setting: 1, address: 0x83 },
            Endpoint { config: 3, iface: 4, setting: 5, address: 0x01 },
        ]
    );
}

#[test]
fn walk_of_nothing_is_empty() {
    assert_eq!(find_readable_endpoints(&Vec::new()), Vec::new());
}

#[test]
fn endpoint_is_selected_by_address_not_position() {
    let endpoints = find_readable_endpoints(&indicator());
    assert_eq!(
        find_endpoint(&endpoints, 0x01),
        Ok(Endpoint { config: 1, iface: 0, setting: 0, address: 0x01 })
    );
    assert_eq!(
        find_endpoint(&endpoints, 0x81),
        Ok(Endpoint { config: 1, iface: 0, setting: 0, address: 0x81 })
    );
}

#[test]
fn first_of_several_with_the_address_is_selected() {
    let endpoints = vec![
        Endpoint { config: 1, iface: 0, setting: 0, address: 0x02 },
        Endpoint { config: 1, iface: 1, setting: 0, address: 0x01 },
        Endpoint { config: 2, iface: 0, setting: 3, address: 0x01 },
    ];
    assert_eq!(
        find_endpoint(&endpoints, 0x01),
        Ok(Endpoint { config: 1, iface: 1, setting: 0, address: 0x01 })
    );
}

#[test]
fn missing_address_is_endpoint_not_found() {
    let endpoints = find_readable_endpoints(&indicator());
    assert_eq!(find_endpoint(&endpoints, 0x02), Err(PatliteError::EndpointNotFound));
    assert_eq!(find_endpoint(&Vec::new(), 0x01), Err(PatliteError::EndpointNotFound));
}

#[test]
fn negotiate_walks_and_selects() {
    assert_eq!(
        negotiate_endpoint(&indicator(), 0x01),
        Ok(Endpoint { config: 1, iface: 0, setting: 0, address: 0x01 })
    );
    assert_eq!(negotiate_endpoint(&indicator(), 0x7F), Err(PatliteError::EndpointNotFound));
    assert_eq!(negotiate_endpoint(&Vec::new(), 0x01), Err(PatliteError::EndpointNotFound));
}
