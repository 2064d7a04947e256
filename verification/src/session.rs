//! The session state machine: device discovery, interrupt-endpoint claim
//! and release (with kernel-driver detach and reattach), a status read, and
//! an optional command write, as one verified transition function.
//!
//! The machine owns every decision; the surrounding program owns the
//! transport. Each [`Session::step`] consumes one plain [`Event`] (what the
//! last transport action came back with) and returns the next [`Action`]
//! to perform. Terminal phases return [`Action::Stop`]. An event that does
//! not belong to the current phase leaves the session unchanged and stops
//! it, since a session driven by its own actions never produces one.

use vstd::prelude::*;

use crate::codec::{encode_command, encoded_command, WARTHOG_PACKET_DATA_LENGTH};
use crate::codec::{decode_status, decoded_intensity_byte, decoded_led_byte};
use crate::endpoints::{find_endpoints, classified, ConfigDesc, Endpoint, EndpointDirection};
use crate::warthog::{ThrottleLEDState, THROTTLE_PID, VID};

verus! {

/// One transport primitive for the surrounding program to perform.
#[derive(Clone, Copy, PartialEq, Eq, Structural, Debug)]
pub enum UsbOp {
    /// Detach the kernel driver from an interface.
    DetachKernelDriver { iface: u8 },
    /// Make a configuration the active one.
    SetConfiguration { config: u8 },
    /// Claim an interface.
    ClaimInterface { iface: u8 },
    /// Select an alternate setting of an interface.
    SetAltSetting { iface: u8, setting: u8 },
    /// Release a claimed interface.
    ReleaseInterface { iface: u8 },
    /// Reattach the kernel driver to an interface.
    AttachKernelDriver { iface: u8 },
}

/// Why a session failed. Device-not-found is an expected, distinguishable
/// outcome; the transport failures name the operation and interface or
/// endpoint involved; a short write is a hard error, never a partial
/// success.
#[derive(Clone, Copy, PartialEq, Eq, Structural, Debug)]
pub enum SessionError {
    /// No attached device both matched the identifiers and opened.
    DeviceNotFound,
    /// The device descriptor could not be read although a handle exists.
    DescriptorReadFailed,
    /// Classification found no inbound interrupt endpoint.
    NoReadableEndpoint,
    /// An update was requested but classification found no outbound
    /// interrupt endpoint.
    NoWritableEndpoint,
    /// A step of the claim sequence failed; the operation names which.
    ClaimFailed { op: UsbOp },
    /// A step of the release sequence failed; the operation names which.
    ReleaseFailed { op: UsbOp },
    /// The status read transfer failed on this endpoint address.
    ReadFailed { address: u8 },
    /// The command write transfer failed on this endpoint address.
    WriteFailed { address: u8 },
    /// The write transfer reported fewer bytes than the fixed packet
    /// length.
    ShortWrite { wrote: usize },
}

/// Where the session stands. The waiting phases each expect exactly one
/// kind of event; the last four are terminal.
#[derive(Clone, Copy, PartialEq, Eq, Structural, Debug)]
pub enum Phase {
    /// Opening the device.
    Idle,
    /// Device opened; reading its configuration descriptors.
    DeviceFound,
    /// Endpoints classified; querying the kernel driver on the read
    /// interface.
    EndpointsClassified,
    /// Running the claim sequence of the read endpoint.
    ClaimingRead,
    /// Read endpoint claimed; the status read is in flight.
    ReadConfigured,
    /// Status read and decoded; releasing the read interface.
    StateRead,
    /// Read interface released; querying the kernel driver on the write
    /// interface.
    ReadReleased,
    /// Running the claim sequence of the write endpoint.
    ClaimingWrite,
    /// Write endpoint claimed; the command write is in flight.
    WriteConfigured,
    /// Command written in full; releasing the write interface.
    StateWritten,
    /// Releasing the claimed interface after a failure, before reporting
    /// it.
    Aborting { error: SessionError },
    /// Terminal: the session finished its work.
    Done,
    /// Terminal: the device already shows the requested state; no write
    /// was attempted.
    NothingToUpdate,
    /// Terminal: the session failed.
    Failed { error: SessionError },
}

/// What the surrounding program is asked to do next.
#[derive(Clone, PartialEq, Eq, Debug)]
pub enum Action {
    /// Scan the attached devices for the identifiers and open the first
    /// match that opens; devices whose descriptor cannot be read, and
    /// matches that fail to open, are skipped, not errors.
    OpenDevice { vendor_id: u16, product_id: u16 },
    /// Read the configuration descriptor tree, skipping configurations
    /// whose descriptor cannot be read.
    ReadConfigs,
    /// Ask whether a kernel driver is active on an interface.
    QueryDriver { iface: u8 },
    /// Perform the operations in order, stopping at the first failure.
    RunOps { ops: Vec<UsbOp> },
    /// Perform the blocking interrupt read on an endpoint address.
    ReadInterrupt { address: u8 },
    /// Perform the blocking interrupt write of this packet on an endpoint
    /// address.
    WriteInterrupt { address: u8, packet: Vec<u8> },
    /// Nothing further: the session is terminal.
    Stop,
}

/// What the last action came back with. `None` payloads report a failed
/// transport call.
#[derive(Clone, Debug)]
pub enum Event {
    /// Whether the device scan found a match that opened.
    DeviceOpened { ok: bool },
    /// The descriptor tree, or `None` when the device descriptor itself
    /// could not be read.
    ConfigsRead { configs: Option<Vec<ConfigDesc>> },
    /// Whether a kernel driver is active; `None` when the query itself
    /// failed, which the machine treats as "no driver", the common
    /// non-error case.
    DriverQueried { active: Option<bool> },
    /// The first operation that failed, or `None` when all ran.
    OpsFinished { failed: Option<UsbOp> },
    /// The bytes of the status read, or `None` when the transfer failed.
    ReadFinished { data: Option<Vec<u8>> },
    /// How many bytes the write transfer reported, or `None` when it
    /// failed.
    WriteFinished { wrote: Option<usize> },
}

/// The claim sequence of an endpoint: detach the kernel driver first when
/// one was active, then make the endpoint's configuration active, claim its
/// interface, and select its alternate setting. All steps must succeed in
/// order; there is no partial-claim retry.
pub open spec fn claim_plan_spec(e: Endpoint, had_driver: bool) -> Seq<UsbOp> {
    (if had_driver {
        seq![UsbOp::DetachKernelDriver { iface: e.iface }]
    } else {
        Seq::empty()
    }) + seq![
        UsbOp::SetConfiguration { config: e.config },
        UsbOp::ClaimInterface { iface: e.iface },
        UsbOp::SetAltSetting { iface: e.iface, setting: e.setting },
    ]
}

/// The release sequence of an interface: release it, then reattach the
/// kernel driver exactly when the claim detached one.
pub open spec fn release_plan_spec(iface: u8, had_driver: bool) -> Seq<UsbOp> {
    seq![UsbOp::ReleaseInterface { iface }] + (if had_driver {
        seq![UsbOp::AttachKernelDriver { iface }]
    } else {
        Seq::empty()
    })
}

/// Builds the claim sequence of an endpoint.
pub fn claim_plan(e: &Endpoint, had_driver: bool) -> (r: Vec<UsbOp>)
    ensures
        r@ == claim_plan_spec(*e, had_driver),
{
    let mut ops: Vec<UsbOp> = Vec::new();
    if had_driver {
        ops.push(UsbOp::DetachKernelDriver { iface: e.iface });
    }
    ops.push(UsbOp::SetConfiguration { config: e.config });
    ops.push(UsbOp::ClaimInterface { iface: e.iface });
    ops.push(UsbOp::SetAltSetting { iface: e.iface, setting: e.setting });
    proof {
        assert(ops@ =~= claim_plan_spec(*e, had_driver));
    }
    ops
}

/// Builds the release sequence of an interface.
pub fn release_plan(iface: u8, had_driver: bool) -> (r: Vec<UsbOp>)
    ensures
        r@ == release_plan_spec(iface, had_driver),
{
    let mut ops: Vec<UsbOp> = Vec::new();
    ops.push(UsbOp::ReleaseInterface { iface });
    if had_driver {
        ops.push(UsbOp::AttachKernelDriver { iface });
    }
    proof {
        assert(ops@ =~= release_plan_spec(iface, had_driver));
    }
    ops
}

/// The device-matching test of the locator: a candidate is taken exactly
/// when both of its identifiers agree with the wanted ones.
pub fn device_matches(
    desc_vendor: u16,
    desc_product: u16,
    vendor_id: u16,
    product_id: u16,
) -> (r: bool)
    ensures
        r == (desc_vendor == vendor_id && desc_product == product_id),
{
    desc_vendor == vendor_id && desc_product == product_id
}

/// One session: the requested state, what has been learnt of the device,
/// and where the run stands. Exclusively owned by one invocation; the
/// kernel-driver flags are set during the claim and consumed exactly once
/// by the matching release.
#[derive(Clone, Copy, Debug)]
pub struct Session {
    /// The LED set the caller asked for.
    pub requested: ThrottleLEDState,
    /// The intensity the caller asked for, transmitted as-is.
    pub intensity: u8,
    /// Only inspect the current state; never write.
    pub read_only: bool,
    /// Where the run stands.
    pub phase: Phase,
    /// First inbound interrupt endpoint, once classified.
    pub read_ep: Option<Endpoint>,
    /// First outbound interrupt endpoint, once classified, when any.
    pub write_ep: Option<Endpoint>,
    /// A kernel driver was detached from the read interface and must be
    /// reattached on release.
    pub read_had_driver: bool,
    /// A kernel driver was detached from the write interface and must be
    /// reattached on release.
    pub write_had_driver: bool,
    /// The LED set the status read reported, once one arrived.
    pub current_leds: ThrottleLEDState,
    /// The intensity the status read reported, once one arrived.
    pub current_intensity: u8,
    /// A status read arrived and the two fields above hold it.
    pub have_current: bool,
}

/// The session as it starts, before any transport work.
pub open spec fn initial_session(
    requested: ThrottleLEDState,
    intensity: u8,
    read_only: bool,
) -> Session {
    Session {
        requested,
        intensity,
        read_only,
        phase: Phase::Idle,
        read_ep: None,
        write_ep: None,
        read_had_driver: false,
        write_had_driver: false,
        current_leds: ThrottleLEDState { bits: 0 },
        current_intensity: 0,
        have_current: false,
    }
}

/// The transition relation of the machine: exactly which successor session
/// and which action one event produces. Every arm pins both down.
pub open spec fn step_rel(s: Session, e: Event, s2: Session, a: Action) -> bool {
    match (s.phase, e) {
        (Phase::Idle, Event::DeviceOpened { ok }) => {
            if ok {
                &&& s2 == Session { phase: Phase::DeviceFound, ..s }
                &&& a == Action::ReadConfigs
            } else {
                &&& s2 == Session {
                    phase: Phase::Failed { error: SessionError::DeviceNotFound },
                    ..s
                }
                &&& a == Action::Stop
            }
        },
        (Phase::DeviceFound, Event::ConfigsRead { configs }) => match configs {
            None => {
                &&& s2 == Session {
                    phase: Phase::Failed { error: SessionError::DescriptorReadFailed },
                    ..s
                }
                &&& a == Action::Stop
            },
            Some(cfgs) => {
                let ins = classified(cfgs@, EndpointDirection::In);
                let outs = classified(cfgs@, EndpointDirection::Out);
                if ins.len() == 0 {
                    &&& s2 == Session {
                        phase: Phase::Failed { error: SessionError::NoReadableEndpoint },
                        ..s
                    }
                    &&& a == Action::Stop
                } else {
                    &&& s2 == Session {
                        phase: Phase::EndpointsClassified,
                        read_ep: Some(ins[0]),
                        write_ep: if outs.len() > 0 {
                            Some(outs[0])
                        } else {
                            None
                        },
                        ..s
                    }
                    &&& a == Action::QueryDriver { iface: ins[0].iface }
                }
            },
        },
        (Phase::EndpointsClassified, Event::DriverQueried { active }) => match s.read_ep {
            None => s2 == s && a == Action::Stop,
            Some(ep) => {
                let had = active == Some(true);
                &&& s2 == Session { phase: Phase::ClaimingRead, read_had_driver: had, ..s }
                &&& a matches Action::RunOps { ops } && ops@ == claim_plan_spec(ep, had)
            },
        },
        (Phase::ClaimingRead, Event::OpsFinished { failed }) => match (failed, s.read_ep) {
            (Some(op), _) => {
                &&& s2 == Session {
                    phase: Phase::Failed { error: SessionError::ClaimFailed { op } },
                    ..s
                }
                &&& a == Action::Stop
            },
            (None, None) => s2 == s && a == Action::Stop,
            (None, Some(ep)) => {
                &&& s2 == Session { phase: Phase::ReadConfigured, ..s }
                &&& a == Action::ReadInterrupt { address: ep.address }
            },
        },
        (Phase::ReadConfigured, Event::ReadFinished { data }) => match s.read_ep {
            None => s2 == s && a == Action::Stop,
            Some(ep) => match data {
                Some(d) => {
                    &&& s2 == Session {
                        phase: Phase::StateRead,
                        current_leds: ThrottleLEDState { bits: decoded_led_byte(d@) },
                        current_intensity: decoded_intensity_byte(d@),
                        have_current: true,
                        ..s
                    }
                    &&& a matches Action::RunOps { ops } && ops@ == release_plan_spec(
                        ep.iface,
                        s.read_had_driver,
                    )
                },
                None => {
                    &&& s2 == Session {
                        phase: Phase::Aborting {
                            error: SessionError::ReadFailed { address: ep.address },
                        },
                        ..s
                    }
                    &&& a matches Action::RunOps { ops } && ops@ == release_plan_spec(
                        ep.iface,
                        s.read_had_driver,
                    )
                },
            },
        },
        (Phase::StateRead, Event::OpsFinished { failed }) => match failed {
            Some(op) => {
                &&& s2 == Session {
                    phase: Phase::Failed { error: SessionError::ReleaseFailed { op } },
                    ..s
                }
                &&& a == Action::Stop
            },
            None => {
                if s.read_only {
                    &&& s2 == Session { phase: Phase::Done, ..s }
                    &&& a == Action::Stop
                } else if s.current_leds == s.requested && s.current_intensity == s.intensity {
                    &&& s2 == Session { phase: Phase::NothingToUpdate, ..s }
                    &&& a == Action::Stop
                } else {
                    match s.write_ep {
                        None => {
                            &&& s2 == Session {
                                phase: Phase::Failed {
                                    error: SessionError::NoWritableEndpoint,
                                },
                                ..s
                            }
                            &&& a == Action::Stop
                        },
                        Some(wep) => {
                            &&& s2 == Session { phase: Phase::ReadReleased, ..s }
                            &&& a == Action::QueryDriver { iface: wep.iface }
                        },
                    }
                }
            },
        },
        (Phase::ReadReleased, Event::DriverQueried { active }) => match s.write_ep {
            None => s2 == s && a == Action::Stop,
            Some(wep) => {
                let had = active == Some(true);
                &&& s2 == Session { phase: Phase::ClaimingWrite, write_had_driver: had, ..s }
                &&& a matches Action::RunOps { ops } && ops@ == claim_plan_spec(wep, had)
            },
        },
        (Phase::ClaimingWrite, Event::OpsFinished { failed }) => match (failed, s.write_ep) {
            (Some(op), _) => {
                &&& s2 == Session {
                    phase: Phase::Failed { error: SessionError::ClaimFailed { op } },
                    ..s
                }
                &&& a == Action::Stop
            },
            (None, None) => s2 == s && a == Action::Stop,
            (None, Some(wep)) => {
                &&& s2 == Session { phase: Phase::WriteConfigured, ..s }
                &&& a matches Action::WriteInterrupt { address, packet }
                    && address == wep.address
                    && packet@ == encoded_command(s.requested.bits, s.intensity)
            },
        },
        (Phase::WriteConfigured, Event::WriteFinished { wrote }) => match s.write_ep {
            None => s2 == s && a == Action::Stop,
            Some(wep) => match wrote {
                Some(n) => {
                    if n == WARTHOG_PACKET_DATA_LENGTH {
                        &&& s2 == Session { phase: Phase::StateWritten, ..s }
                        &&& a matches Action::RunOps { ops } && ops@ == release_plan_spec(
                            wep.iface,
                            s.write_had_driver,
                        )
                    } else {
                        &&& s2 == Session {
                            phase: Phase::Aborting {
                                error: SessionError::ShortWrite { wrote: n },
                            },
                            ..s
                        }
                        &&& a matches Action::RunOps { ops } && ops@ == release_plan_spec(
                            wep.iface,
                            s.write_had_driver,
                        )
                    }
                },
                None => {
                    &&& s2 == Session {
                        phase: Phase::Aborting {
                            error: SessionError::WriteFailed { address: wep.address },
                        },
                        ..s
                    }
                    &&& a matches Action::RunOps { ops } && ops@ == release_plan_spec(
                        wep.iface,
                        s.write_had_driver,
                    )
                },
            },
        },
        (Phase::StateWritten, Event::OpsFinished { failed }) => match failed {
            Some(op) => {
                &&& s2 == Session {
                    phase: Phase::Failed { error: SessionError::ReleaseFailed { op } },
                    ..s
                }
                &&& a == Action::Stop
            },
            None => {
                &&& s2 == Session { phase: Phase::Done, ..s }
                &&& a == Action::Stop
            },
        },
        (Phase::Aborting { error }, Event::OpsFinished { .. }) => {
            &&& s2 == Session { phase: Phase::Failed { error }, ..s }
            &&& a == Action::Stop
        },
        _ => s2 == s && a == Action::Stop,
    }
}

impl Session {
    /// Starts a session for a requested LED set and intensity, and returns
    /// the first action: open the throttle by its fixed identifiers.
    pub fn new(requested: ThrottleLEDState, intensity: u8, read_only: bool) -> (r: (
        Session,
        Action,
    ))
        ensures
            r.0 == initial_session(requested, intensity, read_only),
            r.1 == (Action::OpenDevice { vendor_id: VID, product_id: THROTTLE_PID }),
    {
        let s = Session {
            requested,
            intensity,
            read_only,
            phase: Phase::Idle,
            read_ep: None,
            write_ep: None,
            read_had_driver: false,
            write_had_driver: false,
            current_leds: ThrottleLEDState { bits: 0 },
            current_intensity: 0,
            have_current: false,
        };
        (s, Action::OpenDevice { vendor_id: VID, product_id: THROTTLE_PID })
    }

    /// Feeds the machine the outcome of the last action and returns the
    /// next one. The transition taken is exactly [`step_rel`].
    pub fn step(&mut self, event: Event) -> (a: Action)
        ensures
            step_rel(*old(self), event, *final(self), a),
    {
        match event {
            Event::DeviceOpened { ok } => {
                if self.phase == Phase::Idle {
                    if ok {
                        self.phase = Phase::DeviceFound;
                        Action::ReadConfigs
                    } else {
                        self.phase = Phase::Failed { error: SessionError::DeviceNotFound };
                        Action::Stop
                    }
                } else {
                    Action::Stop
                }
            },
            Event::ConfigsRead { configs } => {
                if self.phase == Phase::DeviceFound {
                    match configs {
                        None => {
                            self.phase = Phase::Failed {
                                error: SessionError::DescriptorReadFailed,
                            };
                            Action::Stop
                        },
                        Some(cfgs) => {
                            let (readable, writable) = find_endpoints(&cfgs);
                            if readable.len() == 0 {
                                self.phase = Phase::Failed {
                                    error: SessionError::NoReadableEndpoint,
                                };
                                Action::Stop
                            } else {
                                let rep = readable[0];
                                self.read_ep = Some(rep);
                                self.write_ep = if writable.len() > 0 {
                                    Some(writable[0])
                                } else {
                                    None
                                };
                                self.phase = Phase::EndpointsClassified;
                                Action::QueryDriver { iface: rep.iface }
                            }
                        },
                    }
                } else {
                    Action::Stop
                }
            },
            Event::DriverQueried { active } => {
                let had = match active {
                    Some(true) => true,
                    _ => false,
                };
                if self.phase == Phase::EndpointsClassified {
                    match self.read_ep {
                        None => Action::Stop,
                        Some(ep) => {
                            self.read_had_driver = had;
                            self.phase = Phase::ClaimingRead;
                            Action::RunOps { ops: claim_plan(&ep, had) }
                        },
                    }
                } else if self.phase == Phase::ReadReleased {
                    match self.write_ep {
                        None => Action::Stop,
                        Some(wep) => {
                            self.write_had_driver = had;
                            self.phase = Phase::ClaimingWrite;
                            Action::RunOps { ops: claim_plan(&wep, had) }
                        },
                    }
                } else {
                    Action::Stop
                }
            },
            Event::OpsFinished { failed } => {
                match self.phase {
                    Phase::ClaimingRead => match failed {
                        Some(op) => {
                            self.phase = Phase::Failed {
                                error: SessionError::ClaimFailed { op },
                            };
                            Action::Stop
                        },
                        None => match self.read_ep {
                            None => Action::Stop,
                            Some(ep) => {
                                self.phase = Phase::ReadConfigured;
                                Action::ReadInterrupt { address: ep.address }
                            },
                        },
                    },
                    Phase::StateRead => match failed {
                        Some(op) => {
                            self.phase = Phase::Failed {
                                error: SessionError::ReleaseFailed { op },
                            };
                            Action::Stop
                        },
                        None => {
                            if self.read_only {
                                self.phase = Phase::Done;
                                Action::Stop
                            } else if self.current_leds == self.requested
                                && self.current_intensity == self.intensity {
                                self.phase = Phase::NothingToUpdate;
                                Action::Stop
                            } else {
                                match self.write_ep {
                                    None => {
                                        self.phase = Phase::Failed {
                                            error: SessionError::NoWritableEndpoint,
                                        };
                                        Action::Stop
                                    },
                                    Some(wep) => {
                                        self.phase = Phase::ReadReleased;
                                        Action::QueryDriver { iface: wep.iface }
                                    },
                                }
                            }
                        },
                    },
                    Phase::ClaimingWrite => match failed {
                        Some(op) => {
                            self.phase = Phase::Failed {
                                error: SessionError::ClaimFailed { op },
                            };
                            Action::Stop
                        },
                        None => match self.write_ep {
                            None => Action::Stop,
                            Some(wep) => {
                                self.phase = Phase::WriteConfigured;
                                Action::WriteInterrupt {
                                    address: wep.address,
                                    packet: encode_command(self.requested, self.intensity),
                                }
                            },
                        },
                    },
                    Phase::StateWritten => match failed {
                        Some(op) => {
                            self.phase = Phase::Failed {
                                error: SessionError::ReleaseFailed { op },
                            };
                            Action::Stop
                        },
                        None => {
                            self.phase = Phase::Done;
                            Action::Stop
                        },
                    },
                    Phase::Aborting { error } => {
                        self.phase = Phase::Failed { error };
                        Action::Stop
                    },
                    _ => Action::Stop,
                }
            },
            Event::ReadFinished { data } => {
                if self.phase == Phase::ReadConfigured {
                    match self.read_ep {
                        None => Action::Stop,
                        Some(ep) => match data {
                            Some(d) => {
                                let (leds, intensity) = decode_status(&d);
                                self.current_leds = leds;
                                self.current_intensity = intensity;
                                self.have_current = true;
                                self.phase = Phase::StateRead;
                                Action::RunOps {
                                    ops: release_plan(ep.iface, self.read_had_driver),
                                }
                            },
                            None => {
                                self.phase = Phase::Aborting {
                                    error: SessionError::ReadFailed { address: ep.address },
                                };
                                Action::RunOps {
                                    ops: release_plan(ep.iface, self.read_had_driver),
                                }
                            },
                        },
                    }
                } else {
                    Action::Stop
                }
            },
            Event::WriteFinished { wrote } => {
                if self.phase == Phase::WriteConfigured {
                    match self.write_ep {
                        None => Action::Stop,
                        Some(wep) => match wrote {
                            Some(n) => {
                                if n == WARTHOG_PACKET_DATA_LENGTH {
                                    self.phase = Phase::StateWritten;
                                } else {
                                    self.phase = Phase::Aborting {
                                        error: SessionError::ShortWrite { wrote: n },
                                    };
                                }
                                Action::RunOps {
                                    ops: release_plan(wep.iface, self.write_had_driver),
                                }
                            },
                            None => {
                                self.phase = Phase::Aborting {
                                    error: SessionError::WriteFailed { address: wep.address },
                                };
                                Action::RunOps {
                                    ops: release_plan(wep.iface, self.write_had_driver),
                                }
                            },
                        },
                    }
                } else {
                    Action::Stop
                }
            },
        }
    }
}

/// The phases in which the machine works with the classified read
/// endpoint.
pub open spec fn needs_read_ep(p: Phase) -> bool {
    ||| p == Phase::EndpointsClassified
    ||| p == Phase::ClaimingRead
    ||| p == Phase::ReadConfigured
    ||| p == Phase::StateRead
}

/// The phases in which the machine works with the classified write
/// endpoint.
pub open spec fn needs_write_ep(p: Phase) -> bool {
    ||| p == Phase::ReadReleased
    ||| p == Phase::ClaimingWrite
    ||| p == Phase::WriteConfigured
    ||| p == Phase::StateWritten
}

/// Well-formedness of a session: whenever the machine stands in a phase
/// that works with a classified endpoint, that endpoint is known.
pub open spec fn session_wf(s: Session) -> bool {
    &&& needs_read_ep(s.phase) ==> s.read_ep is Some
    &&& needs_write_ep(s.phase) ==> s.write_ep is Some
}

/// Law: a fresh session is well-formed.
pub proof fn lemma_wf_initial(requested: ThrottleLEDState, intensity: u8, read_only: bool)
    ensures
        session_wf(initial_session(requested, intensity, read_only)),
{
}

/// Law: every step preserves well-formedness, whatever event arrives. A
/// session driven from the start therefore never stands in an endpoint
/// phase without its endpoint.
pub proof fn lemma_wf_preserved(s: Session, e: Event, s2: Session, a: Action)
    requires
        session_wf(s),
        step_rel(s, e, s2, a),
    ensures
        session_wf(s2),
{
}

/// Law: when the session is not read-only and the freshly read state
/// already equals the requested one, releasing the read interface ends the
/// run at the nothing-to-update terminal, with no further action — in
/// particular, no write-endpoint claim is ever attempted.
pub proof fn lemma_no_update_short_circuit(s: Session, s2: Session, a: Action)
    requires
        s.phase == Phase::StateRead,
        !s.read_only,
        s.current_leds == s.requested,
        s.current_intensity == s.intensity,
        step_rel(s, Event::OpsFinished { failed: None }, s2, a),
    ensures
        s2.phase == Phase::NothingToUpdate,
        a == Action::Stop,
{
}

/// Law: a write transfer that reports fewer (or more) bytes than the fixed
/// packet length is a short-write failure, and the write interface is still
/// released: the very next action is its release sequence, and the release
/// begins by releasing the interface.
pub proof fn lemma_short_write_still_releases(s: Session, s2: Session, a: Action, n: usize)
    requires
        s.phase == Phase::WriteConfigured,
        s.write_ep is Some,
        n != WARTHOG_PACKET_DATA_LENGTH,
        step_rel(s, Event::WriteFinished { wrote: Some(n) }, s2, a),
    ensures
        s2.phase == (Phase::Aborting { error: SessionError::ShortWrite { wrote: n } }),
        a matches Action::RunOps { ops } && ops@ == release_plan_spec(
            s.write_ep.unwrap().iface,
            s.write_had_driver,
        ),
        a matches Action::RunOps { ops } && ops@[0] == (UsbOp::ReleaseInterface {
            iface: s.write_ep.unwrap().iface,
        }),
{
}

/// Law: after the release that follows a failure, the session reports that
/// same failure and stops; cleanup never masks the error.
pub proof fn lemma_abort_reports_error(s: Session, s2: Session, a: Action, err: SessionError, failed: Option<UsbOp>)
    requires
        s.phase == (Phase::Aborting { error: err }),
        step_rel(s, Event::OpsFinished { failed }, s2, a),
    ensures
        s2.phase == (Phase::Failed { error: err }),
        a == Action::Stop,
{
}

} // verus!
