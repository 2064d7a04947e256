use warthog_leds::endpoints::{
    ConfigDesc, Endpoint, EndpointDesc, EndpointDirection, InterfaceAlt, TransferKind,
    find_endpoints,
};

fn interrupt_in(address: u8) -> EndpointDesc {
    EndpointDesc {
        address,
        transfer: TransferKind::Interrupt,
        direction: EndpointDirection::In,
    }
}

fn interrupt_out(address: u8) -> EndpointDesc {
    EndpointDesc {
        address,
        transfer: TransferKind::Interrupt,
        direction: EndpointDirection::Out,
    }
}

#[test]
fn classifies_two_configurations_with_one_endpoint_each_way() {
    let tree = vec![
        ConfigDesc {
            number: 1,
            interfaces: vec![InterfaceAlt {
                iface: 0,
                setting: 0,
                endpoints: vec![interrupt_in(0x81), interrupt_out(0x01)],
            }],
        },
        ConfigDesc {
            number: 2,
            interfaces: vec![InterfaceAlt {
                iface: 3,
                setting: 1,
                endpoints: vec![interrupt_in(0x82), interrupt_out(0x02)],
            }],
        },
    ];
    let (inbound, outbound) = find_endpoints(&tree);
    assert_eq!(
        inbound,
        vec![
            Endpoint { config: 1, iface: 0, setting: 0, address: 0x81 },
            Endpoint { config: 2, iface: 3, setting: 1, address: 0x82 },
        ]
    );
    assert_eq!(
        outbound,
        vec![
            Endpoint { config: 1, iface: 0, setting: 0, address: 0x01 },
            Endpoint { config: 2, iface: 3, setting: 1, address: 0x02 },
        ]
    );
}

#[test]
fn only_interrupt_endpoints_are_selected() {
    let tree = vec![ConfigDesc {
        number: 1,
        interfaces: vec![InterfaceAlt {
            iface: 0,
            setting: 0,
            endpoints: vec![
                EndpointDesc {
                    address: 0x83,
                    transfer: TransferKind::Bulk,
                    direction: EndpointDirection::In,
                },
                EndpointDesc {
                    address: 0x03,
                    transfer: TransferKind::Isochronous,
                    direction: EndpointDirection::Out,
                },
                EndpointDesc {
                    address: 0x00,
                    transfer: TransferKind::Control,
                    direction: EndpointDirection::Out,
                },
                interrupt_in(0x81),
            ],
        }],
    }];
    let (inbound, outbound) = find_endpoints(&tree);
    assert_eq!(
        inbound,
        vec![Endpoint { config: 1, iface: 0, setting: 0, address: 0x81 }]
    );
    assert_eq!(outbound, Vec::new());
}

#[test]
fn lists_keep_enumeration_order() {
    let tree = vec![ConfigDesc {
        number: 1,
        interfaces: vec![
            InterfaceAlt {
                iface: 0,
                setting: 0,
                endpoints: vec![interrupt_in(0x84), interrupt_in(0x81)],
            },
            InterfaceAlt {
                iface: 1,
                setting: 0,
                endpoints: vec![interrupt_in(0x82)],
            },
        ],
    }];
    let (inbound, outbound) = find_endpoints(&tree);
    let addresses: Vec<u8> = inbound.iter().map(|e| e.address).collect();
    assert_eq!(addresses, vec![0x84, 0x81, 0x82]);
    assert!(outbound.is_empty());
}

#[test]
fn empty_tree_yields_empty_lists() {
    let tree: Vec<ConfigDesc> = Vec::new();
    let (inbound, outbound) = find_endpoints(&tree);
    assert!(inbound.is_empty());
    assert!(outbound.is_empty());
}
