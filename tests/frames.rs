use lorawan_node::downlink::{decode_frame, in_group, interpret, DownlinkCommand, Effect, LightState};
use lorawan_node::lorawan::LoRaWANPackage;
use lorawan_node::proto::{get_apply_code_cmd, pack_heartbeat, Addr, Cmd, Heartbeat, Stack};

fn light_on_frame(addr: [u8; 16]) -> Vec<u8> {
    let mut v = vec![0x68, 0x82];
    v.extend_from_slice(&addr);
    v.push(0x01);
    v.push(0x16);
    v
}

#[test]
fn downlink_light_on_decodes() {
    let mut buf = light_on_frame([0; 16]);
    buf.push(0xF6); // snr
    buf.push(0xA0); // rssi
    let pkg = LoRaWANPackage::decode(&buf);
    assert_eq!(pkg.snr, -10);
    assert_eq!(pkg.rssi, -96);
    assert_eq!(pkg.data.len(), 20);
    let f = decode_frame(pkg.data).unwrap();
    assert_eq!(f.cmd, 0x82);
    assert_eq!(f.addr, [0u8; 16]);
    assert_eq!(f.payload, vec![0x01]);
}

#[test]
fn short_buffer_is_not_a_frame() {
    let buf = light_on_frame([0; 16]);
    assert!(decode_frame(&buf[..18]).is_none());
    assert!(decode_frame(&[]).is_none());
}

#[test]
fn wrong_header_or_trailer_is_not_a_frame() {
    let mut buf = light_on_frame([0; 16]);
    buf[0] = 0x69;
    assert!(decode_frame(&buf).is_none());
    let mut buf = light_on_frame([0; 16]);
    let last = buf.len() - 1;
    buf[last] = 0x17;
    assert!(decode_frame(&buf).is_none());
}

#[test]
fn minimal_frame_has_empty_payload() {
    let mut buf = vec![0x68, 0x83];
    buf.extend_from_slice(&[0u8; 16]);
    buf.push(0x16);
    let f = decode_frame(&buf).unwrap();
    assert_eq!(f.cmd, 0x83);
    assert!(f.payload.is_empty());
}

#[test]
fn tiny_package_is_taken_whole() {
    let pkg = LoRaWANPackage::decode(&[0x42]);
    assert_eq!(pkg.snr, 0);
    assert_eq!(pkg.rssi, 0);
    assert_eq!(pkg.data, &[0x42u8][..]);
}

fn code_first_bit() -> [u8; 16] {
    let mut c = [0u8; 16];
    c[0] = 0x01;
    c
}

#[test]
fn group_member_is_honored() {
    let code = code_first_bit();
    let f = decode_frame(&light_on_frame(code_first_bit())).unwrap();
    assert!(in_group(&code, &f.addr));
    assert!(matches!(interpret(&f, &code), Some(DownlinkCommand::Light(true))));
}

#[test]
fn non_member_is_ignored() {
    let code = code_first_bit();
    let f = decode_frame(&light_on_frame([0; 16])).unwrap();
    assert!(!in_group(&code, &f.addr));
    assert!(interpret(&f, &code).is_none());
}

#[test]
fn provisioning_ignores_group() {
    let code = code_first_bit();
    let mut addr = [0u8; 16];
    addr[15] = 0x80;
    let mut buf = vec![0x68, 0x81];
    buf.extend_from_slice(&addr);
    buf.push(0x16);
    let f = decode_frame(&buf).unwrap();
    match interpret(&f, &code) {
        Some(DownlinkCommand::Provision(c)) => assert_eq!(c, addr),
        _ => panic!("expected provisioning"),
    }
}

#[test]
fn membership_in_a_later_byte() {
    let mut code = [0u8; 16];
    code[9] = 0b0110;
    let mut addr = [0u8; 16];
    addr[9] = 0b0100;
    assert!(in_group(&code, &addr));
    addr[9] = 0b1001;
    assert!(!in_group(&code, &addr));
}

fn downlink(cmd: u8, addr: [u8; 16], payload: &[u8]) -> Vec<u8> {
    let mut v = vec![0x68, cmd];
    v.extend_from_slice(&addr);
    v.extend_from_slice(payload);
    v.push(0x16);
    v.push(0x05);
    v.push(0xB0);
    v
}

#[test]
fn controller_follows_downlinks() {
    let code = code_first_bit();
    let mut s = LightState::new();
    assert_eq!(s.brightness, 0x5F);
    let e = s.handle_downlink(&downlink(0x82, code, &[0x01]), &code);
    assert!(matches!(e, Effect::Refresh));
    assert!(s.light);
    assert_eq!(s.snr, Some(5));
    assert_eq!(s.rssi, Some(-80));
    s.handle_downlink(&downlink(0x84, code, &[0x20]), &code);
    assert_eq!(s.brightness, 0x20);
    s.handle_downlink(&downlink(0x82, code, &[0x02]), &code);
    assert!(!s.light);
    let e = s.handle_downlink(&downlink(0x86, code, &[0x01]), &code);
    assert!(matches!(e, Effect::Nothing));
    assert!(s.send_heartbeat);
    let e = s.handle_downlink(&downlink(0x85, code, &[]), &code);
    assert!(matches!(e, Effect::Rejoin));
}

#[test]
fn load_test_triggers_coalesce() {
    let code = code_first_bit();
    let mut s = LightState::new();
    let e = s.handle_downlink(&downlink(0x83, code, &[]), &code);
    assert!(matches!(e, Effect::Refresh));
    assert!(s.load);
    let e = s.handle_downlink(&downlink(0x83, code, &[]), &code);
    assert!(matches!(e, Effect::Nothing));
    s.finish_load();
    assert!(!s.load);
}

#[test]
fn controller_ignores_other_groups_and_noise() {
    let code = code_first_bit();
    let mut s = LightState::new();
    let e = s.handle_downlink(&downlink(0x82, [0; 16], &[0x01]), &code);
    assert!(matches!(e, Effect::Refresh));
    assert!(!s.light);
    let e = s.handle_downlink(&[0x01, 0x02, 0x03], &code);
    assert!(matches!(e, Effect::Refresh));
    assert!(!s.light);
}

#[test]
fn controller_reports_provisioned_code() {
    let code = [0xFF; 16];
    let mut s = LightState::new();
    let mut new_code = [0u8; 16];
    new_code[3] = 0x10;
    match s.handle_downlink(&downlink(0x81, new_code, &[]), &code) {
        Effect::StoreCode(c) => assert_eq!(c, new_code),
        _ => panic!("expected a code to store"),
    }
}

#[test]
fn apply_code_frame_bytes() {
    let mut expected = vec![0x68, 0x01];
    expected.extend_from_slice(&[0u8; 16]);
    expected.push(0x16);
    assert_eq!(get_apply_code_cmd().to_bytes().to_vec(), expected);
}

#[test]
fn heartbeat_frame_bytes() {
    let mut expected = vec![0x68, 0x06];
    expected.extend_from_slice(&[0u8; 16]);
    expected.extend_from_slice(&[0x01, 0x5F, 0x16]);
    assert_eq!(pack_heartbeat(Heartbeat { light: 0x01, brightness: 0x5F }).to_bytes().to_vec(), expected);
    let mut s = LightState::new();
    assert!(s.heartbeat_frame().is_none());
    s.send_heartbeat = true;
    let mut off = vec![0x68, 0x06];
    off.extend_from_slice(&[0u8; 16]);
    off.extend_from_slice(&[0x02, 0x5F, 0x16]);
    assert_eq!(s.heartbeat_frame().unwrap().to_vec(), off);
}

#[test]
fn command_codes_and_addressed_frames() {
    assert_eq!(Cmd::ApplyCode.as_u8(), 0x01);
    assert_eq!(Cmd::ApplyCodeResp.as_u8(), 0x81);
    assert_eq!(Cmd::Event.as_u8(), 0x02);
    assert_eq!(Cmd::Control.as_u8(), 0x82);
    assert_eq!(Cmd::Heartbeat.as_u8(), 0x06);
    let mut addr = [0u8; 16];
    addr[0] = 0xAA;
    let s = Stack::new(Cmd::Control, Heartbeat { light: 1, brightness: 2 }, Addr::new(addr));
    let b = s.to_bytes();
    assert_eq!(b.len(), 21);
    assert_eq!(b[1], 0x82);
    assert_eq!(b[2], 0xAA);
    assert_eq!(&b[18..], &[1, 2, 0x16]);
}
