//! Interrupt-endpoint classification over plain descriptor data.
//!
//! The device's configuration tree is modelled as plain values: every
//! configuration lists the alternate settings of its interfaces, and every
//! alternate setting lists its endpoints with their transfer type and
//! direction. The surrounding program fills this model from the transport's
//! descriptors, in enumeration order, skipping configurations whose
//! descriptor cannot be read; classification itself is verified here.

use vstd::prelude::*;

verus! {

/// Transfer type of one endpoint, as the descriptor advertises it.
#[derive(Clone, Copy, PartialEq, Eq, Structural, Debug)]
pub enum TransferKind {
    Control,
    Isochronous,
    Bulk,
    Interrupt,
}

/// Direction of one endpoint: inbound is device-to-host, outbound is
/// host-to-device.
#[derive(Clone, Copy, PartialEq, Eq, Structural, Debug)]
pub enum EndpointDirection {
    In,
    Out,
}

/// One endpoint of an alternate setting, as advertised.
#[derive(Clone, Copy, PartialEq, Eq, Structural, Debug)]
pub struct EndpointDesc {
    pub address: u8,
    pub transfer: TransferKind,
    pub direction: EndpointDirection,
}

/// One alternate setting of one interface, with its endpoints in
/// enumeration order.
#[derive(Clone, Debug)]
pub struct InterfaceAlt {
    pub iface: u8,
    pub setting: u8,
    pub endpoints: Vec<EndpointDesc>,
}

/// One configuration, with the alternate settings of all its interfaces in
/// enumeration order.
#[derive(Clone, Debug)]
pub struct ConfigDesc {
    pub number: u8,
    pub interfaces: Vec<InterfaceAlt>,
}

/// An interrupt endpoint selected by classification, tagged with its owning
/// configuration, interface and alternate setting. Immutable once
/// discovered.
#[derive(Clone, Copy, PartialEq, Eq, Structural, Debug)]
pub struct Endpoint {
    pub config: u8,
    pub iface: u8,
    pub setting: u8,
    pub address: u8,
}

/// Whether an endpoint is selected for the given direction: only interrupt
/// endpoints are, bulk, isochronous and control ones never.
pub open spec fn selected(e: EndpointDesc, dir: EndpointDirection) -> bool {
    e.transfer == TransferKind::Interrupt && e.direction == dir
}

/// The selected endpoint tagged with its owners.
pub open spec fn tagged(config: u8, iface: u8, setting: u8, e: EndpointDesc) -> Endpoint {
    Endpoint { config, iface, setting, address: e.address }
}

/// The classified endpoints of one alternate setting, in enumeration order.
pub open spec fn classified_of_endpoints(
    config: u8,
    iface: u8,
    setting: u8,
    eps: Seq<EndpointDesc>,
    dir: EndpointDirection,
) -> Seq<Endpoint>
    decreases eps.len(),
{
    if eps.len() == 0 {
        Seq::empty()
    } else {
        classified_of_endpoints(config, iface, setting, eps.drop_last(), dir) + (
        if selected(eps.last(), dir) {
            seq![tagged(config, iface, setting, eps.last())]
        } else {
            Seq::empty()
        })
    }
}

/// The classified endpoints of one configuration, in enumeration order over
/// its alternate settings.
pub open spec fn classified_of_interfaces(
    config: u8,
    alts: Seq<InterfaceAlt>,
    dir: EndpointDirection,
) -> Seq<Endpoint>
    decreases alts.len(),
{
    if alts.len() == 0 {
        Seq::empty()
    } else {
        classified_of_interfaces(config, alts.drop_last(), dir) + classified_of_endpoints(
            config,
            alts.last().iface,
            alts.last().setting,
            alts.last().endpoints@,
            dir,
        )
    }
}

/// All classified endpoints of a device, in enumeration order over its
/// configurations.
pub open spec fn classified(configs: Seq<ConfigDesc>, dir: EndpointDirection) -> Seq<Endpoint>
    decreases configs.len(),
{
    if configs.len() == 0 {
        Seq::empty()
    } else {
        classified(configs.drop_last(), dir) + classified_of_interfaces(
            configs.last().number,
            configs.last().interfaces@,
            dir,
        )
    }
}

/// Partitions the interrupt endpoints of a descriptor tree into the inbound
/// and the outbound list, each in enumeration order and tagged with its
/// owning configuration, interface and alternate setting. Non-interrupt
/// endpoints are never listed. Callers that need "the" readable or writable
/// endpoint take the first element of a list; when a device exposes several
/// interrupt endpoints of one direction, the later ones go unused, by
/// policy rather than by any uniqueness guarantee.
pub fn find_endpoints(configs: &Vec<ConfigDesc>) -> (r: (Vec<Endpoint>, Vec<Endpoint>))
    ensures
        r.0@ == classified(configs@, EndpointDirection::In),
        r.1@ == classified(configs@, EndpointDirection::Out),
{
    let mut readable: Vec<Endpoint> = Vec::new();
    let mut writable: Vec<Endpoint> = Vec::new();
    let mut ci: usize = 0;
    while ci < configs.len()
        invariant
            ci <= configs@.len(),
            readable@ == classified(configs@.take(ci as int), EndpointDirection::In),
            writable@ == classified(configs@.take(ci as int), EndpointDirection::Out),
        decreases configs@.len() - ci,
    {
        let config = &configs[ci];
        let ghost alts_done = configs@.take(ci as int);
        let mut ai: usize = 0;
        while ai < config.interfaces.len()
            invariant
                ai <= config.interfaces@.len(),
                config == configs@[ci as int],
                ci < configs@.len(),
                readable@ == classified(alts_done, EndpointDirection::In)
                    + classified_of_interfaces(
                    config.number,
                    config.interfaces@.take(ai as int),
                    EndpointDirection::In,
                ),
                writable@ == classified(alts_done, EndpointDirection::Out)
                    + classified_of_interfaces(
                    config.number,
                    config.interfaces@.take(ai as int),
                    EndpointDirection::Out,
                ),
            decreases config.interfaces@.len() - ai,
        {
            let alt = &config.interfaces[ai];
            let ghost eps_done_in = readable@;
            let ghost eps_done_out = writable@;
            let mut ei: usize = 0;
            while ei < alt.endpoints.len()
                invariant
                    ei <= alt.endpoints@.len(),
                    alt == config.interfaces@[ai as int],
                    ai < config.interfaces@.len(),
                    readable@ == eps_done_in + classified_of_endpoints(
                        config.number,
                        alt.iface,
                        alt.setting,
                        alt.endpoints@.take(ei as int),
                        EndpointDirection::In,
                    ),
                    writable@ == eps_done_out + classified_of_endpoints(
                        config.number,
                        alt.iface,
                        alt.setting,
                        alt.endpoints@.take(ei as int),
                        EndpointDirection::Out,
                    ),
                decreases alt.endpoints@.len() - ei,
            {
                let ep = alt.endpoints[ei];
                proof {
                    assert(alt.endpoints@.take(ei + 1).drop_last() =~= alt.endpoints@.take(
                        ei as int,
                    ));
                    assert(alt.endpoints@.take(ei + 1).last() == ep);
                }
                if ep.transfer == TransferKind::Interrupt {
                    let found = Endpoint {
                        config: config.number,
                        iface: alt.iface,
                        setting: alt.setting,
                        address: ep.address,
                    };
                    match ep.direction {
                        EndpointDirection::In => readable.push(found),
                        EndpointDirection::Out => writable.push(found),
                    }
                }
                proof {
                    assert(readable@ =~= eps_done_in + classified_of_endpoints(
                        config.number,
                        alt.iface,
                        alt.setting,
                        alt.endpoints@.take(ei + 1),
                        EndpointDirection::In,
                    ));
                    assert(writable@ =~= eps_done_out + classified_of_endpoints(
                        config.number,
                        alt.iface,
                        alt.setting,
                        alt.endpoints@.take(ei + 1),
                        EndpointDirection::Out,
                    ));
                }
                ei = ei + 1;
            }
            proof {
                assert(alt.endpoints@.take(alt.endpoints@.len() as int) =~= alt.endpoints@);
                assert(config.interfaces@.take(ai + 1).drop_last() =~= config.interfaces@.take(
                    ai as int,
                ));
                assert(config.interfaces@.take(ai + 1).last() == config.interfaces@[ai as int]);
                assert(readable@ =~= classified(alts_done, EndpointDirection::In)
                    + classified_of_interfaces(
                    config.number,
                    config.interfaces@.take(ai + 1),
                    EndpointDirection::In,
                ));
                assert(writable@ =~= classified(alts_done, EndpointDirection::Out)
                    + classified_of_interfaces(
                    config.number,
                    config.interfaces@.take(ai + 1),
                    EndpointDirection::Out,
                ));
            }
            ai = ai + 1;
        }
        proof {
            assert(config.interfaces@.take(config.interfaces@.len() as int)
                =~= config.interfaces@);
            assert(configs@.take(ci + 1).drop_last() =~= configs@.take(ci as int));
            assert(configs@.take(ci + 1).last() == configs@[ci as int]);
            assert(readable@ =~= classified(configs@.take(ci + 1), EndpointDirection::In));
            assert(writable@ =~= classified(configs@.take(ci + 1), EndpointDirection::Out));
        }
        ci = ci + 1;
    }
    proof {
        assert(configs@.take(configs@.len() as int) =~= configs@);
    }
    (readable, writable)
}

} // verus!
