//! The flat typed record that one qualifying captured packet becomes.
//!
//! Every non-optional field always has a value: a field that is absent from
//! its layer, or does not read as the target type, falls back to a documented
//! default (`0` for numbers, `"Unknown"` for most strings, the empty string
//! for the payload and the relative timestamp). The control-transfer-only
//! fields are nullable: each is present or absent on its own.

use vstd::prelude::*;

verus! {

/// One row of the output table.
///
/// `timestamp_raw` carries the relative capture time as the capture reported
/// it (empty when absent); the surrounding application renders it as a
/// floating-point column, which this library does not hold.
#[derive(Debug, Clone)]
pub struct PacketRecord {
    pub session_id: String,
    pub frame_number: u32,
    pub timestamp_raw: String,
    pub timestamp_absolute: String,
    pub direction: String,
    pub device_address: u8,
    pub bus_id: u8,
    pub endpoint_address: String,
    pub endpoint_number: u8,
    pub transfer_type: String,
    pub urb_type: String,
    pub urb_status: String,
    pub data_length: u32,
    pub urb_length: u32,
    pub payload_hex: String,
    pub payload_bytes_hex: String,
    pub setup_flag: String,
    pub data_flag: String,
    pub interval: u32,
    pub start_frame: u32,
    pub frame_length: u32,
    pub frame_protocols: String,
    pub source_file: String,
    pub bmrequest_type: Option<String>,
    pub brequest: Option<String>,
    pub brequest_name: Option<String>,
    pub wvalue: Option<u32>,
    pub windex: Option<u32>,
    pub wlength: Option<u32>,
    pub descriptor_type: Option<String>,
    pub descriptor_index: Option<u32>,
    pub language_id: Option<u32>,
    pub transfer_flags: Option<String>,
    pub copy_of_transfer_flags: Option<String>,
    pub urb_id: String,
    pub usb_src: String,
    pub usb_dst: String,
    pub usb_addr: String,
    pub urb_ts_sec: u64,
    pub urb_ts_usec: u32,
    pub added_datetime: String,
}

} // verus!
