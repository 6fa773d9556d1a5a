use ez80::vdp::{vdp_step, VdpAction, VdpState};

#[test]
fn text_is_printed() {
    let (s, a) = vdp_step(VdpState::Text, b'A');
    assert_eq!(VdpState::Text, s);
    assert!(matches!(a, VdpAction::Print(0x41)));
    let (_, a) = vdp_step(VdpState::Text, 0x0a);
    assert!(matches!(a, VdpAction::NewLine));
    let (_, a) = vdp_step(VdpState::Text, 0x0d);
    assert!(matches!(a, VdpAction::Nothing));
    let (_, a) = vdp_step(VdpState::Text, 0x7f);
    assert!(matches!(a, VdpAction::UnknownPacket(0x7f)));
}

#[test]
fn general_poll_echoes_the_byte() {
    let (s, _) = vdp_step(VdpState::Text, 0x17);
    assert_eq!(VdpState::SystemControl, s);
    let (s, _) = vdp_step(s, 0);
    assert_eq!(VdpState::Video, s);
    let (s, _) = vdp_step(s, 0x80);
    assert_eq!(VdpState::GeneralPoll, s);
    let (s, a) = vdp_step(s, 0x42);
    assert_eq!(VdpState::Text, s);
    match a {
        VdpAction::Send(v) => assert_eq!(vec![0x80, 1, 0x42], v),
        _ => panic!("no reply"),
    }
}

#[test]
fn mode_info_reports_the_screen() {
    let (s, a) = vdp_step(VdpState::Video, 0x86);
    assert_eq!(VdpState::Text, s);
    match a {
        VdpAction::Send(v) => assert_eq!(vec![0x86, 7, 0x80, 0x02, 0x90, 0x01, 80, 25, 1], v),
        _ => panic!("no reply"),
    }
    let (s, a) = vdp_step(VdpState::Video, 0x99);
    assert_eq!(VdpState::Text, s);
    assert!(matches!(a, VdpAction::UnknownVideoPacket(0x99)));
    let (s, a) = vdp_step(VdpState::SystemControl, 5);
    assert_eq!(VdpState::Text, s);
    assert!(matches!(a, VdpAction::UnknownSystemPacket(5)));
}
