//! Command dispatcher: routes a completed packet to its effect — zero the
//! indicators, set the four indicator duties, set the network-activity
//! flags, or request a render pass. A packet whose payload length does not
//! match what its kind requires is dropped with no effect.

use vstd::prelude::*;

use crate::display::RenderRequest;
use crate::packet::{emission, next_phase, Packet, PacketBuilder, PacketId};
use crate::utils::FourLedDisplay;

verus! {

/// The two binary network-activity outputs.
#[derive(Copy, Clone, PartialEq, Eq, Structural, Debug)]
pub struct NetFlags {
    pub tx_active: bool,
    pub rx_active: bool,
}

impl NetFlags {
    /// Both directions inactive.
    pub fn new() -> (r: Self)
        ensures
            r == (NetFlags { tx_active: false, rx_active: false }),
    {
        NetFlags { tx_active: false, rx_active: false }
    }
}

/// The indicator duties after a packet's effect: a reset zeroes all four, a
/// well-shaped indicator packet replaces them with its payload bytes, and
/// every other packet leaves them unchanged.
pub open spec fn leds_after(id: PacketId, payload: Seq<u8>, cur: Seq<u8>) -> Seq<u8> {
    if id is Reset {
        seq![0u8, 0u8, 0u8, 0u8]
    } else if id is SetLedsPacket && payload.len() == 4 {
        seq![payload[0], payload[1], payload[2], payload[3]]
    } else {
        cur
    }
}

/// The network flags after a packet's effect: a well-shaped network-state
/// packet sets each flag to whether its byte is nonzero; every other packet
/// leaves them unchanged.
pub open spec fn net_after(id: PacketId, payload: Seq<u8>, cur: NetFlags) -> NetFlags {
    if id is NetStatePacket && payload.len() == 2 {
        NetFlags { tx_active: payload[0] != 0, rx_active: payload[1] != 0 }
    } else {
        cur
    }
}

/// The render pass a packet requests: a well-shaped render packet carries
/// the four metric values and the four network values; every other packet
/// requests none.
pub open spec fn render_request_of(id: PacketId, payload: Seq<u8>) -> Option<RenderRequest> {
    if id is ScreenDrawPacket && payload.len() == 8 {
        Option::Some(
            RenderRequest {
                cpu1: payload[0],
                cpu2: payload[1],
                cpu3: payload[2],
                cpu4: payload[3],
                tx_fine: payload[4],
                rx_fine: payload[5],
                tx_wide: payload[6],
                rx_wide: payload[7],
            },
        )
    } else {
        Option::None
    }
}

/// Route one packet: mutate the indicator bank and the network flags as the
/// packet demands, and hand back the render pass it requests, if any.
pub fn dispatch(pkt: &Packet, leds: &mut FourLedDisplay, net: &mut NetFlags) -> (r: Option<
    RenderRequest,
>)
    ensures
        final(leds).duties() == leds_after(pkt.id, pkt.payload_bytes(), old(leds).duties()),
        *final(net) == net_after(pkt.id, pkt.payload_bytes(), *old(net)),
        r == render_request_of(pkt.id, pkt.payload_bytes()),
{
    match pkt.id {
        PacketId::Reset => {
            leds.set_all(0);
            None
        },
        PacketId::SetLedsPacket => {
            if let Some(payload) = &pkt.payload {
                if payload.len() == 4 {
                    leds.set_many(payload[0], payload[1], payload[2], payload[3]);
                }
            }
            None
        },
        PacketId::NetStatePacket => {
            if let Some(payload) = &pkt.payload {
                if payload.len() == 2 {
                    net.tx_active = payload[0] != 0;
                    net.rx_active = payload[1] != 0;
                }
            }
            None
        },
        PacketId::ScreenDrawPacket => {
            if let Some(payload) = &pkt.payload {
                if payload.len() == 8 {
                    return Some(
                        RenderRequest {
                            cpu1: payload[0],
                            cpu2: payload[1],
                            cpu3: payload[2],
                            cpu4: payload[3],
                            tx_fine: payload[4],
                            rx_fine: payload[5],
                            tx_wide: payload[6],
                            rx_wide: payload[7],
                        },
                    );
                }
            }
            None
        },
        PacketId::Invalid => None,
    }
}

/// What one iteration of the polling loop decides: the level of the
/// activity output ("serial byte processed" vs "no byte / error"), and the
/// render pass to perform, if any.
#[derive(Copy, Clone, Debug)]
pub struct PollOutcome {
    pub load_active: bool,
    pub render: Option<RenderRequest>,
}

/// One iteration of the polling loop, given what the inputs offered: the
/// sampled reset input, and the byte the serial source handed over, if any.
/// When reset is asserted, every indicator is zeroed and serial processing
/// is skipped for this iteration; otherwise a byte, if present, advances the
/// decoder, and a completed packet is dispatched at once.
pub fn poll_step(
    reset_pressed: bool,
    input: Option<u8>,
    builder: &mut PacketBuilder,
    leds: &mut FourLedDisplay,
    net: &mut NetFlags,
) -> (r: PollOutcome)
    requires
        old(builder).wf(),
    ensures
        final(builder).wf(),
        reset_pressed ==> {
            &&& final(builder).phase() == old(builder).phase()
            &&& final(leds).duties() == seq![0u8, 0u8, 0u8, 0u8]
            &&& *final(net) == *old(net)
            &&& r.load_active == true
            &&& r.render is None
        },
        !reset_pressed && input is None ==> {
            &&& final(builder).phase() == old(builder).phase()
            &&& final(leds).duties() == old(leds).duties()
            &&& *final(net) == *old(net)
            &&& r.load_active == false
            &&& r.render is None
        },
        input matches Some(byte) ==> !reset_pressed ==> {
            &&& final(builder).phase() == next_phase(old(builder).phase(), byte)
            &&& r.load_active == true
            &&& match emission(old(builder).phase(), byte) {
                Option::Some(e) => {
                    &&& final(leds).duties() == leds_after(e.0, e.1, old(leds).duties())
                    &&& *final(net) == net_after(e.0, e.1, *old(net))
                    &&& r.render == render_request_of(e.0, e.1)
                },
                Option::None => {
                    &&& final(leds).duties() == old(leds).duties()
                    &&& *final(net) == *old(net)
                    &&& r.render is None
                },
            }
        },
{
    if reset_pressed {
        leds.set_all(0);
        return PollOutcome { load_active: true, render: None };
    }
    match input {
        Some(byte) => {
            let pkt_opt = builder.update(byte);
            match pkt_opt {
                Some(pkt) => {
                    let render = dispatch(&pkt, leds, net);
                    PollOutcome { load_active: true, render }
                },
                None => PollOutcome { load_active: true, render: None },
            }
        },
        None => PollOutcome { load_active: false, render: None },
    }
}

/// Dispatching the same indicator packet twice leaves the same indicator
/// duties as dispatching it once.
pub proof fn lemma_set_leds_idempotent(id: PacketId, payload: Seq<u8>, cur: Seq<u8>)
    requires
        id is SetLedsPacket,
    ensures
        leds_after(id, payload, leds_after(id, payload, cur)) == leds_after(id, payload, cur),
{
}

} // verus!
