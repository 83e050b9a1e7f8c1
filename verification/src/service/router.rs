//! Routing of HID reports between the two boards: to the local host when
//! this board drives the active output, to the peer otherwise.
use vstd::prelude::*;
use crate::constants::{packet_type_code, PacketType};
use crate::hal::{Hal, PacketQueue, PeerLink, ReportQueue, Timer};
use crate::structs::Device;

verus! {

/// Report routing by the active output.
pub trait ReportRouter {
    /// Route a mouse report.
    fn route_mouse(&mut self, state: &mut Device, report: [u8; 8]);
    /// Route a keyboard report.
    fn route_kbd(&mut self, state: &mut Device, report: [u8; 8]);
    /// Route a consumer-control report.
    fn route_consumer(&mut self, state: &mut Device, report: [u8; 4]);
    /// Route a system-control report.
    fn route_system(&mut self, state: &mut Device, report: [u8; 2]);
    /// Record activity of the local board now.
    fn touch_activity(&self, state: &mut Device);
}

impl ReportRouter for Hal {
    fn route_mouse(&mut self, state: &mut Device, report: [u8; 8])
        ensures
            old(state).is_active_output_spec() ==> final(self)@ == old(self)@.push_mouse_report(report)
                && *final(state) == old(state).touched(old(self)@.time_us),
            !old(state).is_active_output_spec() ==> final(self)@ == old(self)@.send_packet(
                report@,
                packet_type_code(PacketType::MouseReport),
            ) && *final(state) == *old(state),
    {
        if state.is_active_output() {
            self.push_mouse_report(report);
            self.touch_activity(state);
        } else {
            self.send_packet(report.as_slice(), PacketType::MouseReport.to_u8());
        }
    }

    fn route_kbd(&mut self, state: &mut Device, report: [u8; 8])
        ensures
            old(state).is_active_output_spec() ==> final(self)@ == old(self)@.push_kbd_report(report)
                && *final(state) == old(state).touched(old(self)@.time_us),
            !old(state).is_active_output_spec() ==> final(self)@ == old(self)@.send_packet(
                report@,
                packet_type_code(PacketType::KeyboardReport),
            ) && *final(state) == *old(state),
    {
        if state.is_active_output() {
            self.push_kbd_report(report);
            self.touch_activity(state);
        } else {
            self.send_packet(report.as_slice(), PacketType::KeyboardReport.to_u8());
        }
    }

    fn route_consumer(&mut self, state: &mut Device, report: [u8; 4])
        ensures
            old(state).is_active_output_spec() ==> final(self)@ == old(self)@.push_consumer_control(report)
                && *final(state) == old(state).touched(old(self)@.time_us),
            !old(state).is_active_output_spec() ==> final(self)@ == old(self)@.send_packet(
                report@,
                packet_type_code(PacketType::ConsumerControl),
            ) && *final(state) == *old(state),
    {
        if state.is_active_output() {
            self.push_consumer_control(report);
            self.touch_activity(state);
        } else {
            self.send_packet(report.as_slice(), PacketType::ConsumerControl.to_u8());
        }
    }

    fn route_system(&mut self, state: &mut Device, report: [u8; 2])
        ensures
            old(state).is_active_output_spec() ==> final(self)@ == old(self)@.push_system_control(report)
                && *final(state) == old(state).touched(old(self)@.time_us),
            !old(state).is_active_output_spec() ==> final(self)@ == old(self)@.send_packet(
                report@,
                packet_type_code(PacketType::SystemControl),
            ) && *final(state) == *old(state),
    {
        if state.is_active_output() {
            self.push_system_control(report);
            self.touch_activity(state);
        } else {
            self.send_packet(report.as_slice(), PacketType::SystemControl.to_u8());
        }
    }

    fn touch_activity(&self, state: &mut Device)
        ensures
            *final(state) == old(state).touched(self@.time_us),
    {
        let role = state.cfg.board_role as usize;
        if role < 2 {
            state.cfg.last_activity[role] = self.now_us_64();
            assert(state.cfg.last_activity =~= old(state).touched(self@.time_us).cfg.last_activity);
        }
    }
}

} // verus!
