use lorawan_node::bytes::find;
use lorawan_node::serial::{Command, IOState, GPIO};

fn wire(c: Command) -> Vec<u8> {
    c.as_bytes().to_vec()
}

#[test]
fn set_band_renders_decimal() {
    assert_eq!(wire(Command::SetBand(6)), b"at+band=6\r\n".to_vec());
    assert_eq!(wire(Command::SetBand(0)), b"at+band=0\r\n".to_vec());
    assert_eq!(wire(Command::SetBand(255)), b"at+band=255\r\n".to_vec());
}

#[test]
fn fixed_commands_render_exactly() {
    assert_eq!(wire(Command::Factory), b"at+factory\r\n".to_vec());
    assert_eq!(wire(Command::GetDevEui), b"at+deveui?\r\n".to_vec());
    assert_eq!(wire(Command::GetVer), b"at+ver?\r\n".to_vec());
    assert_eq!(wire(Command::GetDevAddr), b"at+devaddr?\r\n".to_vec());
    assert_eq!(wire(Command::GetAppEui), b"at+appeui?\r\n".to_vec());
    assert_eq!(wire(Command::SetAppSKey), b"at+deveui?\r\n".to_vec());
    assert_eq!(wire(Command::SetNwkSKey), b"at+deveui?\r\n".to_vec());
    assert_eq!(wire(Command::Save), b"at+save\r\n".to_vec());
    assert_eq!(wire(Command::Reset), b"at+reset\r\n".to_vec());
    assert_eq!(wire(Command::Debug), b"at+debug=0\r\n".to_vec());
    assert_eq!(wire(Command::SetClassC), b"at+class=2\r\n".to_vec());
    assert_eq!(wire(Command::SetStatus), b"at+status=2,2\r\n".to_vec());
    assert_eq!(wire(Command::SetDataRate), b"AT+DATARATE=5,3,50,1,23\r\n".to_vec());
}

#[test]
fn parameterized_commands_render_exactly() {
    assert_eq!(
        wire(Command::SetAppkey(b"009569060001289C009569060001289C".to_vec())),
        b"at+appkey=009569060001289C009569060001289C\r\n".to_vec()
    );
    assert_eq!(
        wire(Command::SetAppEui(b"009569060001289C".to_vec())),
        b"at+appeui=009569060001289C\r\n".to_vec()
    );
    assert_eq!(wire(Command::SetChmask(b"00FF".to_vec())), b"at+chmask=00FF\r\n".to_vec());
    assert_eq!(wire(Command::SetRx2(5, 505300000)), b"at+rx2=5,505300000\r\n".to_vec());
    assert_eq!(wire(Command::SetRx2(0, 0)), b"at+rx2=0,0\r\n".to_vec());
    assert_eq!(
        wire(Command::SetGroupDevAddr(
            b"F8D4A3B1".to_vec(),
            b"1F2E3D4C5B6A798087D2C3F4A5B6C7D8".to_vec(),
            b"9A8B7C6D5E4F3A2B1C0D9E8F7A6B5C4D".to_vec(),
        )),
        b"at+devaddr=F8D4A3B1,4,0,1F2E3D4C5B6A798087D2C3F4A5B6C7D8,9A8B7C6D5E4F3A2B1C0D9E8F7A6B5C4D\r\n"
            .to_vec()
    );
}

#[test]
fn empty_parameters_still_terminate_the_line() {
    assert_eq!(wire(Command::SetAppEui(Vec::new())), b"at+appeui=\r\n".to_vec());
}

#[test]
fn pin_numbers_and_levels() {
    assert_eq!(GPIO::P0.to_u8(), 0);
    assert_eq!(GPIO::P1.to_u8(), 1);
    assert_eq!(GPIO::P2.to_u8(), 2);
    assert_eq!(GPIO::P3.to_u8(), 3);
    assert_eq!(IOState::High.to_u8(), 1);
    assert_eq!(IOState::Low.to_u8(), 0);
}

#[test]
fn byte_search_finds_first_occurrence() {
    assert_eq!(find(b"ab+VER:x+VER:", b"+VER:"), Some(2));
    assert_eq!(find(b"abc", b"abcd"), None);
    assert_eq!(find(b"abc", b""), Some(0));
    assert_eq!(find(b"", b"x"), None);
}

#[test]
fn overlong_command_keeps_first_128_bytes() {
    let w = Command::SetAppkey(vec![b'A'; 200]).as_bytes();
    assert_eq!(w.len(), 128);
    assert_eq!(&w[..10], b"at+appkey=");
    assert!(w[10..].iter().all(|&b| b == b'A'));
    assert_eq!(Command::SetAppkey(vec![b'A'; 200]).wire_bytes().len(), 212);
}
