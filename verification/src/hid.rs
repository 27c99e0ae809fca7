//! The USB HID class contract of the keyboard: descriptor bytes, control
//! transfer dispatch, LED output state and the last-report cache.
//!
//! The transport itself (endpoint allocation, enqueueing bytes, accepting a
//! transfer) is the caller's business; this module decides what the
//! descriptors hold, which control requests are answered and with which
//! bytes, and how the class state changes on each host request.

use vstd::prelude::*;
use vstd::slice::slice_to_vec;

verus! {

/// Interface class for HID devices (`bInterfaceClass`).
pub const USB_CLASS_HID: u8 = 0x03;

/// `bInterfaceSubClass`: this device supports the boot interface.
pub const BOOT_INTERFACE_SUBCLASS: u8 = 0x01;

/// `bInterfaceProtocol`: boot keyboard.
pub const KEYBOARD_INTERFACE_PROTOCOL: u8 = 0x01;

/// Descriptor type of the HID descriptor.
pub const HID_DESCRIPTOR_TYPE: u8 = 0x21;

/// Descriptor type of the Report descriptor.
pub const REPORT_DESCRIPTOR_TYPE: u8 = 0x22;

/// Standard GET_DESCRIPTOR request code.
pub const GET_DESCRIPTOR_REQUEST: u8 = 0x06;

/// HID class GET_REPORT request code.
pub const GET_REPORT_REQUEST: u8 = 0x01;

/// HID class SET_REPORT request code.
pub const SET_REPORT_REQUEST: u8 = 0x09;

/// Report type selector for Input reports in GET_REPORT.
pub const REPORT_TYPE_INPUT: u8 = 0x01;

/// Max packet size of the Interrupt-IN endpoint, in bytes.
pub const INTERRUPT_IN_MAX_PACKET_SIZE: u16 = 8;

/// Polling interval of the Interrupt-IN endpoint, in milliseconds.
pub const INTERRUPT_IN_POLL_INTERVAL_MS: u8 = 1;

/// The boot-keyboard Report descriptor: 8 modifier bits (variable input),
/// one constant reserved byte, 5 LED output bits with 3 bits of padding,
/// and an array of six 8-bit keycode slots. This layout is authoritative:
/// it must describe the 8-byte input report and the 1-byte output report
/// exactly as the class code builds and parses them.
pub open spec fn spec_keyboard_report_descriptor() -> Seq<u8> {
    seq![
        0x05u8, 0x01u8,  // Usage Page (Generic Desktop)
        0x09u8, 0x06u8,  // Usage (Keyboard)
        0xA1u8, 0x01u8,  // Collection (Application)
        // Modifier keys
        0x05u8, 0x07u8,  //   Usage Page (Keyboard/Keypad)
        0x19u8, 0xE0u8,  //   Usage Minimum (0xE0)
        0x29u8, 0xE7u8,  //   Usage Maximum (0xE7)
        0x15u8, 0x00u8,  //   Logical Minimum (0)
        0x25u8, 0x01u8,  //   Logical Maximum (1)
        0x95u8, 0x08u8,  //   Report Count (8)
        0x75u8, 0x01u8,  //   Report Size (1)
        0x81u8, 0x02u8,  //   Input (Data, Variable, Absolute)
        // Reserved byte
        0x95u8, 0x01u8,  //   Report Count (1)
        0x75u8, 0x08u8,  //   Report Size (8)
        0x81u8, 0x01u8,  //   Input (Constant, Variable, Absolute)
        // LEDs
        0x05u8, 0x08u8,  //   Usage Page (LEDs)
        0x19u8, 0x01u8,  //   Usage Minimum (Num Lock)
        0x29u8, 0x05u8,  //   Usage Maximum (Kana)
        0x95u8, 0x05u8,  //   Report Count (5)
        0x75u8, 0x01u8,  //   Report Size (1)
        0x91u8, 0x02u8,  //   Output (Data, Variable, Absolute)
        // LED padding
        0x95u8, 0x01u8,  //   Report Count (1)
        0x75u8, 0x03u8,  //   Report Size (3)
        0x91u8, 0x01u8,  //   Output (Constant, Variable, Absolute)
        // Keycodes
        0x05u8, 0x07u8,  //   Usage Page (Keyboard/Keypad)
        0x19u8, 0x00u8,  //   Usage Minimum (0x00)
        0x29u8, 0xDDu8,  //   Usage Maximum (0xDD)
        0x15u8, 0x00u8,  //   Logical Minimum (0)
        0x26u8, 0xFFu8, 0x00u8,  //   Logical Maximum (255)
        0x95u8, 0x06u8,  //   Report Count (6)
        0x75u8, 0x08u8,  //   Report Size (8)
        0x81u8, 0x00u8,  //   Input (Data, Array, Absolute)
        0xC0u8,  // End Collection
    ]
}

/// The 7-byte HID descriptor body: HID version 1.11 (LSB first), country
/// code "not supported", one class descriptor entry pointing at the Report
/// descriptor with its exact little-endian byte length. The caller prepends
/// the 2-byte length/type header where one is required.
pub open spec fn spec_hid_descriptor() -> Seq<u8> {
    let len = spec_keyboard_report_descriptor().len() as u16;
    seq![
        0x11u8,
        0x01u8,
        0x00u8,
        0x01u8,
        REPORT_DESCRIPTOR_TYPE,
        (len & 0xFFu16) as u8,
        (len >> 8u16) as u8,
    ]
}

/// The HID descriptor prefixed with its own 2-byte length/type header, as
/// answered to GET_DESCRIPTOR(HID).
pub open spec fn spec_prefixed_hid_descriptor() -> Seq<u8> {
    seq![9u8, HID_DESCRIPTOR_TYPE].add(spec_hid_descriptor())
}

/// The Report descriptor as a byte table.
pub fn keyboard_report_descriptor() -> (d: [u8; 64])
    ensures
        d@ == spec_keyboard_report_descriptor(),
{
    let d: [u8; 64] = [
        0x05, 0x01, 0x09, 0x06, 0xA1, 0x01,
        0x05, 0x07, 0x19, 0xE0, 0x29, 0xE7, 0x15, 0x00, 0x25, 0x01, 0x95, 0x08, 0x75, 0x01, 0x81, 0x02,
        0x95, 0x01, 0x75, 0x08, 0x81, 0x01,
        0x05, 0x08, 0x19, 0x01, 0x29, 0x05, 0x95, 0x05, 0x75, 0x01, 0x91, 0x02,
        0x95, 0x01, 0x75, 0x03, 0x91, 0x01,
        0x05, 0x07, 0x19, 0x00, 0x29, 0xDD, 0x15, 0x00, 0x26, 0xFF, 0x00, 0x95, 0x06, 0x75, 0x08, 0x81, 0x00,
        0xC0,
    ];
    assert(d@ =~= spec_keyboard_report_descriptor());
    d
}

/// The 7-byte HID descriptor body, computed from the Report descriptor's
/// actual length.
pub fn hid_descriptor() -> (d: [u8; 7])
    ensures
        d@ == spec_hid_descriptor(),
{
    let report = keyboard_report_descriptor();
    let len: u16 = report.len() as u16;
    let d: [u8; 7] = [
        0x11,
        0x01,
        0x00,
        0x01,
        REPORT_DESCRIPTOR_TYPE,
        (len & 0xFF) as u8,
        (len >> 8) as u8,
    ];
    assert(d@ =~= spec_hid_descriptor());
    d
}

/// The host-controlled keyboard LED state, decoded from the 1-byte Output
/// report.
#[derive(Debug, Copy, Clone, PartialEq, Eq, Structural)]
pub struct LedState {
    pub num_lock: bool,
    pub caps_lock: bool,
    pub scroll_lock: bool,
    pub compose: bool,
    pub kana: bool,
}

/// How a host Output-report byte unpacks into LED flags: bit 0 num lock,
/// bit 1 caps lock, bit 2 scroll lock, bit 3 compose, bit 4 kana.
pub open spec fn spec_led_state_of_byte(byte: u8) -> LedState {
    LedState {
        num_lock: byte & 1 == 1,
        caps_lock: (byte >> 1) & 1 == 1,
        scroll_lock: (byte >> 2) & 1 == 1,
        compose: (byte >> 3) & 1 == 1,
        kana: (byte >> 4) & 1 == 1,
    }
}

/// All LEDs off.
pub open spec fn spec_led_state_default() -> LedState {
    LedState { num_lock: false, caps_lock: false, scroll_lock: false, compose: false, kana: false }
}

impl Default for LedState {
    /// All LEDs off, the state before the host writes anything.
    fn default() -> (r: LedState)
        ensures
            r == spec_led_state_default(),
    {
        LedState {
            num_lock: false,
            caps_lock: false,
            scroll_lock: false,
            compose: false,
            kana: false,
        }
    }
}

impl From<u8> for LedState {
    /// Bit-unpack a host Output-report byte.
    fn from(byte: u8) -> (r: LedState) {
        LedState {
            num_lock: byte & 1 == 1,
            caps_lock: (byte >> 1) & 1 == 1,
            scroll_lock: (byte >> 2) & 1 == 1,
            compose: (byte >> 3) & 1 == 1,
            kana: (byte >> 4) & 1 == 1,
        }
    }
}

impl vstd::std_specs::convert::FromSpecImpl<u8> for LedState {
    open spec fn obeys_from_spec() -> bool {
        true
    }

    open spec fn from_spec(byte: u8) -> LedState {
        spec_led_state_of_byte(byte)
    }
}

/// The direction-independent fields of a USB control request's setup
/// packet, as this class dispatches on them.
#[derive(Copy, Clone, PartialEq, Eq, Structural, Debug)]
pub enum RequestKind {
    Standard,
    Class,
    Vendor,
    Reserved,
}

/// A host control request: the request type, the request code, and the
/// `wValue` / `wIndex` setup words.
#[derive(Copy, Clone, PartialEq, Eq, Structural, Debug)]
pub struct ControlRequest {
    pub request_type: RequestKind,
    pub request: u8,
    pub value: u16,
    pub index: u16,
}

/// The bytes an IN control request is answered with, or `None` where the
/// request is left unhandled (the transport then stalls it, which is the
/// correct USB answer to an unrecognized request).
pub open spec fn spec_control_in_response(
    interface: u8,
    last_report: [u8; 8],
    req: ControlRequest,
) -> Option<Seq<u8>> {
    if req.index != interface as u16 {
        None
    } else if req.request_type == RequestKind::Standard && req.request == GET_DESCRIPTOR_REQUEST {
        if (req.value >> 8u16) as u8 == HID_DESCRIPTOR_TYPE {
            Some(spec_prefixed_hid_descriptor())
        } else if (req.value >> 8u16) as u8 == REPORT_DESCRIPTOR_TYPE {
            Some(spec_keyboard_report_descriptor())
        } else {
            None
        }
    } else if req.request_type == RequestKind::Class && req.request == GET_REPORT_REQUEST {
        if (req.value >> 8u16) as u8 == REPORT_TYPE_INPUT {
            Some(last_report@)
        } else {
            None
        }
    } else {
        None
    }
}

/// The HID protocol state of the keyboard interface: which interface number
/// it answers for, the most recently transmitted input report, and the
/// host-written LED state.
pub struct HidClass {
    /// The interface number the host addresses this class under.
    usb_interface: u8,
    /// The 8-byte wire form of the most recently transmitted input report,
    /// answered to GET_REPORT(Input).
    last_report: [u8; 8],
    /// The LED state most recently written by the host.
    led_state: LedState,
}

impl HidClass {
    /// The interface number this class answers for.
    pub closed spec fn interface(self) -> u8 {
        self.usb_interface
    }

    /// The cached wire form of the most recently transmitted report.
    pub closed spec fn report_cache(self) -> [u8; 8] {
        self.last_report
    }

    /// The host-written LED state.
    pub closed spec fn led(self) -> LedState {
        self.led_state
    }

    /// A fresh class for the given interface: an all-zero report cache (no
    /// keys pressed) and all LEDs off.
    pub fn new(usb_interface: u8) -> (h: HidClass)
        ensures
            h.interface() == usb_interface,
            h.report_cache()@ == seq![0u8, 0u8, 0u8, 0u8, 0u8, 0u8, 0u8, 0u8],
            h.led() == spec_led_state_default(),
    {
        let h = HidClass {
            usb_interface,
            last_report: [0u8; 8],
            led_state: LedState::default(),
        };
        assert(h.last_report@ =~= seq![0u8, 0u8, 0u8, 0u8, 0u8, 0u8, 0u8, 0u8]);
        h
    }

    /// The current LED state, as last written by the host.
    pub fn led_state(&self) -> (r: LedState)
        ensures
            r == self.led(),
    {
        self.led_state
    }

    /// Record a successfully enqueued input report as the new last report.
    ///
    /// To be called only after the transport accepted the bytes: a report
    /// whose enqueue failed is not cached, so a retry resends the same
    /// intended state and GET_REPORT never answers with bytes the host was
    /// never sent.
    pub fn commit_report(&mut self, data: &[u8; 8])
        ensures
            final(self).report_cache() == *data,
            final(self).interface() == old(self).interface(),
            final(self).led() == old(self).led(),
    {
        self.last_report = *data;
    }

    /// Answer an IN control request: the prefixed HID descriptor for
    /// GET_DESCRIPTOR(HID), the Report descriptor for
    /// GET_DESCRIPTOR(Report), the cached last report for
    /// GET_REPORT(Input); anything else — another descriptor type, another
    /// request, or another interface's index — is left unhandled.
    pub fn control_in_response(&self, req: &ControlRequest) -> (r: Option<Vec<u8>>)
        ensures
            r is Some <==> spec_control_in_response(
                self.interface(),
                self.report_cache(),
                *req,
            ) is Some,
            r matches Some(v) ==> v@ == spec_control_in_response(
                self.interface(),
                self.report_cache(),
                *req,
            )->Some_0,
    {
        if req.index != self.usb_interface as u16 {
            return None;
        }
        match (req.request_type, req.request) {
            (RequestKind::Standard, GET_DESCRIPTOR_REQUEST) => {
                let descriptor_type = (req.value >> 8) as u8;
                if descriptor_type == HID_DESCRIPTOR_TYPE {
                    let hid = hid_descriptor();
                    let buf: [u8; 9] = [
                        // Length of the answer inclusive of this prefix.
                        9,
                        HID_DESCRIPTOR_TYPE,
                        hid[0],
                        hid[1],
                        hid[2],
                        hid[3],
                        hid[4],
                        hid[5],
                        hid[6],
                    ];
                    assert(buf@ =~= spec_prefixed_hid_descriptor());
                    Some(slice_to_vec(buf.as_slice()))
                } else if descriptor_type == REPORT_DESCRIPTOR_TYPE {
                    let report = keyboard_report_descriptor();
                    Some(slice_to_vec(report.as_slice()))
                } else {
                    None
                }
            },
            (RequestKind::Class, GET_REPORT_REQUEST) => {
                let report_type = (req.value >> 8) as u8;
                if report_type == REPORT_TYPE_INPUT {
                    Some(slice_to_vec(self.last_report.as_slice()))
                } else {
                    None
                }
            },
            _ => None,
        }
    }

    /// Apply an OUT control transfer: a SET_REPORT with a data stage
    /// bit-unpacks the first byte into the LED state; any other transfer
    /// addressed to this interface is accepted but ignored. A transfer for
    /// another interface's index is not accepted and changes nothing.
    pub fn control_out_update(&mut self, req: &ControlRequest, data: &[u8]) -> (accepted: bool)
        ensures
            accepted == (req.index == old(self).interface() as u16),
            final(self).interface() == old(self).interface(),
            final(self).report_cache() == old(self).report_cache(),
            final(self).led() == (
            if req.index == old(self).interface() as u16 && req.request == SET_REPORT_REQUEST
                && data@.len() > 0 {
                spec_led_state_of_byte(data@[0])
            } else {
                old(self).led()
            }),
    {
        if req.index != self.usb_interface as u16 {
            return false;
        }
        if req.request == SET_REPORT_REQUEST {
            if data.len() > 0 {
                // The keyboard Output report is 1 byte of LED state.
                self.led_state = LedState::from(data[0]);
            }
        }
        true
    }
}

} // verus!
