use vstd::prelude::*;

verus! {

/*
    The VDP side of the serial link of an Agon: the bytes that the eZ80
    sends are text to print or VDU packets; a few packets ask for a reply.
*/

/// Where the VDP stands in reading a packet.
#[derive(Clone, Copy, Debug, PartialEq, Eq, Structural)]
pub enum VdpState {
    /// Between packets: a byte is text or starts a packet.
    Text,
    /// After VDU 0x17 (system control).
    SystemControl,
    /// After VDU 0x17, 0 (video).
    Video,
    /// After VDU 0x17, 0, 0x80 (general poll), waiting for the byte to echo.
    GeneralPoll,
}

/// What the VDP does on a byte.
pub enum VdpAction {
    /// Nothing to do.
    Nothing,
    /// Prints an end of line.
    NewLine,
    /// Prints the character of the byte.
    Print(u8),
    /// Sends the bytes back to the eZ80.
    Send(Vec<u8>),
    /// Reports an unknown VDU byte.
    UnknownPacket(u8),
    /// Reports an unknown system control packet VDU 0x17, v.
    UnknownSystemPacket(u8),
    /// Reports an unknown video packet VDU 0x17, 0, v.
    UnknownVideoPacket(u8),
}

/// Width of the screen that the VDP reports, in pixels.
pub const SCREEN_WIDTH: u16 = 640;

/// Height of the screen that the VDP reports, in pixels.
pub const SCREEN_HEIGHT: u16 = 400;

/// The reply to the video mode query: width and height little endian, 80
/// columns, 25 rows, 1 colour.
pub open spec fn mode_info_reply() -> Seq<u8> {
    seq![
        0x86u8,
        7u8,
        (SCREEN_WIDTH % 256) as u8,
        (SCREEN_WIDTH / 256) as u8,
        (SCREEN_HEIGHT % 256) as u8,
        (SCREEN_HEIGHT / 256) as u8,
        80u8,
        25u8,
        1u8,
    ]
}

/// A printable character: from space on, DEL excepted.
pub open spec fn printable(b: u8) -> bool {
    b >= 0x20 && b != 0x7f
}

/// The state after the byte `b`.
pub open spec fn vdp_next(s: VdpState, b: u8) -> VdpState {
    match s {
        VdpState::Text => if b == 0x17 {
            VdpState::SystemControl
        } else {
            VdpState::Text
        },
        VdpState::SystemControl => if b == 0 {
            VdpState::Video
        } else {
            VdpState::Text
        },
        VdpState::Video => if b == 0x80 {
            VdpState::GeneralPoll
        } else {
            VdpState::Text
        },
        VdpState::GeneralPoll => VdpState::Text,
    }
}

/// `a` is what the VDP does on the byte `b` in state `s`. The zero byte
/// that the eZ80 sends first, and carriage returns, are ignored.
pub open spec fn vdp_does(s: VdpState, b: u8, a: VdpAction) -> bool {
    match s {
        VdpState::Text => if b == 0 || b == 0xd || b == 0x17 {
            a is Nothing
        } else if b == 0xa {
            a is NewLine
        } else if printable(b) {
            a == VdpAction::Print(b)
        } else {
            a == VdpAction::UnknownPacket(b)
        },
        VdpState::SystemControl => if b == 0 {
            a is Nothing
        } else {
            a == VdpAction::UnknownSystemPacket(b)
        },
        VdpState::Video => if b == 0x80 {
            a is Nothing
        } else if b == 0x86 {
            a matches VdpAction::Send(v) && v@ == mode_info_reply()
        } else {
            a == VdpAction::UnknownVideoPacket(b)
        },
        VdpState::GeneralPoll => a matches VdpAction::Send(v) && v@ == seq![0x80u8, 1u8, b],
    }
}

/// One byte received by the VDP: the next state and what to do. A packet is
/// done when the state is back to `Text`.
pub fn vdp_step(s: VdpState, b: u8) -> (r: (VdpState, VdpAction))
    ensures
        r.0 == vdp_next(s, b),
        vdp_does(s, b, r.1),
{
    match s {
        VdpState::Text => {
            if b == 0 || b == 0xd {
                (VdpState::Text, VdpAction::Nothing)
            } else if b == 0xa {
                (VdpState::Text, VdpAction::NewLine)
            } else if b >= 0x20 && b != 0x7f {
                (VdpState::Text, VdpAction::Print(b))
            } else if b == 0x17 {
                (VdpState::SystemControl, VdpAction::Nothing)
            } else {
                (VdpState::Text, VdpAction::UnknownPacket(b))
            }
        },
        VdpState::SystemControl => {
            if b == 0 {
                (VdpState::Video, VdpAction::Nothing)
            } else {
                (VdpState::Text, VdpAction::UnknownSystemPacket(b))
            }
        },
        VdpState::Video => {
            if b == 0x80 {
                (VdpState::GeneralPoll, VdpAction::Nothing)
            } else if b == 0x86 {
                let w = SCREEN_WIDTH;
                let h = SCREEN_HEIGHT;
                let reply = vec![
                    0x86u8,
                    7u8,
                    (w % 256) as u8,
                    (w / 256) as u8,
                    (h % 256) as u8,
                    (h / 256) as u8,
                    80u8,
                    25u8,
                    1u8,
                ];
                proof {
                    assert(reply@ =~= mode_info_reply());
                }
                (VdpState::Text, VdpAction::Send(reply))
            } else {
                (VdpState::Text, VdpAction::UnknownVideoPacket(b))
            }
        },
        VdpState::GeneralPoll => {
            let reply = vec![0x80u8, 1u8, b];
            proof {
                assert(reply@ =~= seq![0x80u8, 1u8, b]);
            }
            (VdpState::Text, VdpAction::Send(reply))
        },
    }
}

} // verus!
