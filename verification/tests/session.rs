use warthog_leds::codec::encode_command;
use warthog_leds::endpoints::{
    ConfigDesc, EndpointDesc, EndpointDirection, InterfaceAlt, TransferKind,
};
use warthog_leds::session::{
    Action, Event, Phase, Session, SessionError, UsbOp, claim_plan, device_matches, release_plan,
};
use warthog_leds::warthog::{ThrottleLEDState, BACKLIGHT, LED_3, THROTTLE_PID, VID};

/// One configuration; the inbound interrupt endpoint sits on interface 0,
/// the outbound one on interface 1.
fn throttle_tree() -> Vec<ConfigDesc> {
    vec![ConfigDesc {
        number: 1,
        interfaces: vec![
            InterfaceAlt {
                iface: 0,
                setting: 0,
                endpoints: vec![EndpointDesc {
                    address: 0x81,
                    transfer: TransferKind::Interrupt,
                    direction: EndpointDirection::In,
                }],
            },
            InterfaceAlt {
                iface: 1,
                setting: 0,
                endpoints: vec![EndpointDesc {
                    address: 0x01,
                    transfer: TransferKind::Interrupt,
                    direction: EndpointDirection::Out,
                }],
            },
        ],
    }]
}

fn status_packet(led_bits: u8, intensity: u8) -> Vec<u8> {
    let mut packet = vec![0u8; 36];
    packet[26] = led_bits;
    packet[27] = intensity;
    packet
}

/// Drives a fresh session up to the point where the read interface was
/// released: device opened, endpoints classified, read endpoint claimed
/// (kernel driver detached), status read, read interface released.
fn drive_past_read(requested: ThrottleLEDState, intensity: u8, read_only: bool,
                   current_bits: u8, current_intensity: u8) -> (Session, Action) {
    let (mut s, a) = Session::new(requested, intensity, read_only);
    assert_eq!(a, Action::OpenDevice { vendor_id: VID, product_id: THROTTLE_PID });
    let a = s.step(Event::DeviceOpened { ok: true });
    assert_eq!(a, Action::ReadConfigs);
    let a = s.step(Event::ConfigsRead { configs: Some(throttle_tree()) });
    assert_eq!(a, Action::QueryDriver { iface: 0 });
    let a = s.step(Event::DriverQueried { active: Some(true) });
    assert_eq!(
        a,
        Action::RunOps {
            ops: vec![
                UsbOp::DetachKernelDriver { iface: 0 },
                UsbOp::SetConfiguration { config: 1 },
                UsbOp::ClaimInterface { iface: 0 },
                UsbOp::SetAltSetting { iface: 0, setting: 0 },
            ],
        }
    );
    let a = s.step(Event::OpsFinished { failed: None });
    assert_eq!(a, Action::ReadInterrupt { address: 0x81 });
    let a = s.step(Event::ReadFinished {
        data: Some(status_packet(current_bits, current_intensity)),
    });
    assert_eq!(s.phase, Phase::StateRead);
    assert_eq!(
        a,
        Action::RunOps {
            ops: vec![
                UsbOp::ReleaseInterface { iface: 0 },
                UsbOp::AttachKernelDriver { iface: 0 },
            ],
        }
    );
    let a = s.step(Event::OpsFinished { failed: None });
    (s, a)
}

#[test]
fn full_update_run_reaches_done() {
    let requested = ThrottleLEDState::from(BACKLIGHT | LED_3);
    let (mut s, a) = drive_past_read(requested, 3, false, BACKLIGHT, 2);
    assert_eq!(s.phase, Phase::ReadReleased);
    assert_eq!(s.current_leds, ThrottleLEDState::from(BACKLIGHT));
    assert_eq!(s.current_intensity, 2);
    assert_eq!(a, Action::QueryDriver { iface: 1 });
    // a failed kernel-driver query counts as "no driver active"
    let a = s.step(Event::DriverQueried { active: None });
    assert_eq!(
        a,
        Action::RunOps {
            ops: vec![
                UsbOp::SetConfiguration { config: 1 },
                UsbOp::ClaimInterface { iface: 1 },
                UsbOp::SetAltSetting { iface: 1, setting: 0 },
            ],
        }
    );
    let a = s.step(Event::OpsFinished { failed: None });
    assert_eq!(
        a,
        Action::WriteInterrupt { address: 0x01, packet: encode_command(requested, 3) }
    );
    let a = s.step(Event::WriteFinished { wrote: Some(36) });
    assert_eq!(s.phase, Phase::StateWritten);
    assert_eq!(
        a,
        Action::RunOps { ops: vec![UsbOp::ReleaseInterface { iface: 1 }] }
    );
    let a = s.step(Event::OpsFinished { failed: None });
    assert_eq!(a, Action::Stop);
    assert_eq!(s.phase, Phase::Done);
}

#[test]
fn matching_state_short_circuits_without_write_claim() {
    let requested = ThrottleLEDState::from(BACKLIGHT | LED_3);
    let (s, a) = drive_past_read(requested, 3, false, BACKLIGHT | LED_3, 3);
    assert_eq!(s.phase, Phase::NothingToUpdate);
    assert_eq!(a, Action::Stop);
}

#[test]
fn read_only_run_skips_the_write_branch() {
    let requested = ThrottleLEDState::from(BACKLIGHT);
    let (s, a) = drive_past_read(requested, 2, true, 0x44, 5);
    assert_eq!(s.phase, Phase::Done);
    assert_eq!(a, Action::Stop);
}

#[test]
fn short_write_fails_and_still_releases() {
    let requested = ThrottleLEDState::from(BACKLIGHT | LED_3);
    let (mut s, _) = drive_past_read(requested, 3, false, BACKLIGHT, 2);
    let _ = s.step(Event::DriverQueried { active: Some(false) });
    let _ = s.step(Event::OpsFinished { failed: None });
    let a = s.step(Event::WriteFinished { wrote: Some(20) });
    // the write interface is released before the error is reported
    assert_eq!(
        a,
        Action::RunOps { ops: vec![UsbOp::ReleaseInterface { iface: 1 }] }
    );
    let a = s.step(Event::OpsFinished { failed: None });
    assert_eq!(a, Action::Stop);
    assert_eq!(s.phase, Phase::Failed { error: SessionError::ShortWrite { wrote: 20 } });
}

#[test]
fn unopenable_device_is_reported_as_not_found() {
    let (mut s, _) = Session::new(ThrottleLEDState::default(), 2, true);
    let a = s.step(Event::DeviceOpened { ok: false });
    assert_eq!(a, Action::Stop);
    assert_eq!(s.phase, Phase::Failed { error: SessionError::DeviceNotFound });
}

#[test]
fn unreadable_device_descriptor_aborts() {
    let (mut s, _) = Session::new(ThrottleLEDState::default(), 2, true);
    let _ = s.step(Event::DeviceOpened { ok: true });
    let a = s.step(Event::ConfigsRead { configs: None });
    assert_eq!(a, Action::Stop);
    assert_eq!(s.phase, Phase::Failed { error: SessionError::DescriptorReadFailed });
}

#[test]
fn missing_readable_endpoint_aborts() {
    let (mut s, _) = Session::new(ThrottleLEDState::default(), 2, true);
    let _ = s.step(Event::DeviceOpened { ok: true });
    let tree = vec![ConfigDesc { number: 1, interfaces: Vec::new() }];
    let a = s.step(Event::ConfigsRead { configs: Some(tree) });
    assert_eq!(a, Action::Stop);
    assert_eq!(s.phase, Phase::Failed { error: SessionError::NoReadableEndpoint });
}

#[test]
fn missing_writable_endpoint_aborts_only_when_a_write_is_due() {
    let mut tree = throttle_tree();
    tree[0].interfaces.pop();
    let (mut s, _) = Session::new(ThrottleLEDState::from(LED_3), 5, false);
    let _ = s.step(Event::DeviceOpened { ok: true });
    let _ = s.step(Event::ConfigsRead { configs: Some(tree) });
    let _ = s.step(Event::DriverQueried { active: Some(false) });
    let _ = s.step(Event::OpsFinished { failed: None });
    let _ = s.step(Event::ReadFinished { data: Some(status_packet(BACKLIGHT, 2)) });
    let a = s.step(Event::OpsFinished { failed: None });
    assert_eq!(a, Action::Stop);
    assert_eq!(s.phase, Phase::Failed { error: SessionError::NoWritableEndpoint });
}

#[test]
fn failed_claim_step_aborts_with_the_operation() {
    let (mut s, _) = Session::new(ThrottleLEDState::default(), 2, true);
    let _ = s.step(Event::DeviceOpened { ok: true });
    let _ = s.step(Event::ConfigsRead { configs: Some(throttle_tree()) });
    let _ = s.step(Event::DriverQueried { active: Some(false) });
    let failed = UsbOp::ClaimInterface { iface: 0 };
    let a = s.step(Event::OpsFinished { failed: Some(failed) });
    assert_eq!(a, Action::Stop);
    assert_eq!(s.phase, Phase::Failed { error: SessionError::ClaimFailed { op: failed } });
}

#[test]
fn failed_read_transfer_still_releases_then_fails() {
    let (mut s, _) = Session::new(ThrottleLEDState::default(), 2, true);
    let _ = s.step(Event::DeviceOpened { ok: true });
    let _ = s.step(Event::ConfigsRead { configs: Some(throttle_tree()) });
    let _ = s.step(Event::DriverQueried { active: Some(true) });
    let _ = s.step(Event::OpsFinished { failed: None });
    let a = s.step(Event::ReadFinished { data: None });
    assert_eq!(
        a,
        Action::RunOps {
            ops: vec![
                UsbOp::ReleaseInterface { iface: 0 },
                UsbOp::AttachKernelDriver { iface: 0 },
            ],
        }
    );
    let a = s.step(Event::OpsFinished { failed: None });
    assert_eq!(a, Action::Stop);
    assert_eq!(s.phase, Phase::Failed { error: SessionError::ReadFailed { address: 0x81 } });
}

#[test]
fn failed_release_step_is_reported() {
    let (mut s, _) = Session::new(ThrottleLEDState::default(), 2, true);
    let _ = s.step(Event::DeviceOpened { ok: true });
    let _ = s.step(Event::ConfigsRead { configs: Some(throttle_tree()) });
    let _ = s.step(Event::DriverQueried { active: Some(false) });
    let _ = s.step(Event::OpsFinished { failed: None });
    let _ = s.step(Event::ReadFinished { data: Some(status_packet(0, 0)) });
    let failed = UsbOp::ReleaseInterface { iface: 0 };
    let a = s.step(Event::OpsFinished { failed: Some(failed) });
    assert_eq!(a, Action::Stop);
    assert_eq!(s.phase, Phase::Failed { error: SessionError::ReleaseFailed { op: failed } });
}

#[test]
fn failed_write_transfer_still_releases_then_fails() {
    let requested = ThrottleLEDState::from(LED_3);
    let (mut s, _) = drive_past_read(requested, 3, false, BACKLIGHT, 2);
    let _ = s.step(Event::DriverQueried { active: Some(false) });
    let _ = s.step(Event::OpsFinished { failed: None });
    let a = s.step(Event::WriteFinished { wrote: None });
    assert_eq!(
        a,
        Action::RunOps { ops: vec![UsbOp::ReleaseInterface { iface: 1 }] }
    );
    let a = s.step(Event::OpsFinished { failed: None });
    assert_eq!(a, Action::Stop);
    assert_eq!(s.phase, Phase::Failed { error: SessionError::WriteFailed { address: 0x01 } });
}

#[test]
fn claim_plan_sequences() {
    let ep = warthog_leds::endpoints::Endpoint { config: 2, iface: 4, setting: 1, address: 0x82 };
    assert_eq!(
        claim_plan(&ep, true),
        vec![
            UsbOp::DetachKernelDriver { iface: 4 },
            UsbOp::SetConfiguration { config: 2 },
            UsbOp::ClaimInterface { iface: 4 },
            UsbOp::SetAltSetting { iface: 4, setting: 1 },
        ]
    );
    assert_eq!(
        claim_plan(&ep, false),
        vec![
            UsbOp::SetConfiguration { config: 2 },
            UsbOp::ClaimInterface { iface: 4 },
            UsbOp::SetAltSetting { iface: 4, setting: 1 },
        ]
    );
}

#[test]
fn release_plan_sequences() {
    assert_eq!(
        release_plan(4, true),
        vec![
            UsbOp::ReleaseInterface { iface: 4 },
            UsbOp::AttachKernelDriver { iface: 4 },
        ]
    );
    assert_eq!(release_plan(4, false), vec![UsbOp::ReleaseInterface { iface: 4 }]);
}

#[test]
fn device_matching_needs_both_identifiers() {
    assert!(device_matches(VID, THROTTLE_PID, VID, THROTTLE_PID));
    assert!(!device_matches(VID, 0x0402, VID, THROTTLE_PID));
    assert!(!device_matches(0x045e, THROTTLE_PID, VID, THROTTLE_PID));
}
