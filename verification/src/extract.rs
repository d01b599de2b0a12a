//! The record extractor: one parsed packet in, one typed record out.
//!
//! A packet must carry a `frame` and a `usb` protocol layer; a packet missing
//! either is dropped. Within a present layer every field is read tolerantly:
//! an absent or unreadable value falls back to the documented default rather
//! than failing, because different USB transfer kinds carry different
//! optional sub-fields. Only a payload whose hex text does not decode drops
//! the packet.

use vstd::prelude::*;

use crate::codec::{
    hex_decode, hex_decoded, hex_encode, hex_encoded, strip_colons, valid_hex, without_colons,
};
use crate::digits::{parse_u32, parse_u64, parse_u8, parsed_below};
use crate::packet::{field_lookup, layer_lookup, Layer, MetaField, Packet};
use crate::record::PacketRecord;

verus! {

/// Why one packet was dropped; the caller skips it and goes on.
#[derive(Debug, Clone, Copy, PartialEq, Eq, Structural)]
pub enum ExtractError {
    /// A required protocol layer (`frame` or `usb`) is absent.
    MissingLayer,
    /// The payload hex text is non-empty and does not decode.
    MalformedPayload,
}

/// The string a field reads as: its value when present, `dflt` otherwise.
pub open spec fn str_field_or(fields: Seq<MetaField>, name: Seq<char>, dflt: Seq<char>) -> Seq<
    char,
> {
    match field_lookup(fields, name) {
        Some(v) => v,
        None => dflt,
    }
}

/// The `u32` a field reads as: its decimal value when present and it fits,
/// zero otherwise.
pub open spec fn u32_field(fields: Seq<MetaField>, name: Seq<char>) -> u32 {
    match field_lookup(fields, name) {
        Some(v) => match parsed_below(v, u32::MAX as nat) {
            Some(n) => n as u32,
            None => 0,
        },
        None => 0,
    }
}

/// The `u8` a field reads as, zero when absent or unreadable.
pub open spec fn u8_field(fields: Seq<MetaField>, name: Seq<char>) -> u8 {
    match field_lookup(fields, name) {
        Some(v) => match parsed_below(v, u8::MAX as nat) {
            Some(n) => n as u8,
            None => 0,
        },
        None => 0,
    }
}

/// The `u64` a field reads as, zero when absent or unreadable.
pub open spec fn u64_field(fields: Seq<MetaField>, name: Seq<char>) -> u64 {
    match field_lookup(fields, name) {
        Some(v) => match parsed_below(v, u64::MAX as nat) {
            Some(n) => n as u64,
            None => 0,
        },
        None => 0,
    }
}

/// The nullable `u32` a field reads as: absent when the field is absent or
/// does not read as a `u32`.
pub open spec fn opt_u32_field(fields: Seq<MetaField>, name: Seq<char>) -> Option<u32> {
    match field_lookup(fields, name) {
        Some(v) => match parsed_below(v, u32::MAX as nat) {
            Some(n) => Some(n as u32),
            None => None,
        },
        None => None,
    }
}

/// The nullable string `o` holds exactly the looked-up value `v`.
pub open spec fn opt_str_matches(o: Option<String>, v: Option<Seq<char>>) -> bool {
    match (o, v) {
        (Some(a), Some(b)) => a@ == b,
        (None, None) => true,
        _ => false,
    }
}

/// The direction label for a raw direction field: `"0"` is host-to-device,
/// `"1"` is device-to-host, anything else (absence included) is unknown.
pub open spec fn direction_spec(v: Option<Seq<char>>) -> Seq<char> {
    match v {
        Some(s) => if s == "0"@ {
            "H->D"@
        } else if s == "1"@ {
            "D->H"@
        } else {
            "Unknown"@
        },
        None => "Unknown"@,
    }
}

/// The direction mapping is total and closed: whatever the raw field holds,
/// and whether it is present at all, the label is one of exactly three.
pub proof fn lemma_direction_total(v: Option<Seq<char>>)
    ensures
        direction_spec(v) == "H->D"@ || direction_spec(v) == "D->H"@ || direction_spec(v)
            == "Unknown"@,
        direction_spec(v) == "H->D"@ <==> v == Some("0"@),
        direction_spec(v) == "D->H"@ <==> v == Some("1"@),
{
    reveal_strlit("0");
    reveal_strlit("1");
    reveal_strlit("H->D");
    reveal_strlit("D->H");
    reveal_strlit("Unknown");
    assert("0"@ != "1"@) by {
        assert("0"@[0] == '0' && "1"@[0] == '1');
    }
    assert("H->D"@ != "D->H"@) by {
        assert("H->D"@[0] == 'H' && "D->H"@[0] == 'D');
    }
    assert("H->D"@ != "Unknown"@ && "D->H"@ != "Unknown"@) by {
        assert("H->D"@.len() == 4 && "D->H"@.len() == 4 && "Unknown"@.len() == 7);
    }
}

/// The packet carries both required protocol layers.
pub open spec fn has_required_layers(p: Packet) -> bool {
    layer_lookup(p.layers@, "frame"@) is Some && layer_lookup(p.layers@, "usb"@) is Some
}

/// The fields of the packet's `frame` layer.
pub open spec fn frame_fields_of(p: Packet) -> Seq<MetaField> {
    layer_lookup(p.layers@, "frame"@).unwrap().fields@
}

/// The fields of the packet's `usb` layer.
pub open spec fn usb_fields_of(p: Packet) -> Seq<MetaField> {
    layer_lookup(p.layers@, "usb"@).unwrap().fields@
}

/// The raw payload hex text, empty when the packet carries none.
pub open spec fn raw_payload_of(p: Packet) -> Seq<char> {
    str_field_or(usb_fields_of(p), "usb.capdata"@, ""@)
}

/// The canonical payload hex text: the raw text with colons stripped.
pub open spec fn clean_payload_of(p: Packet) -> Seq<char> {
    without_colons(raw_payload_of(p))
}

/// The canonical payload decodes (the empty payload trivially does).
pub open spec fn payload_well_formed(p: Packet) -> bool {
    valid_hex(clean_payload_of(p))
}

/// Extraction succeeds on `p`: both layers present, payload well-formed.
pub open spec fn extract_ok(p: Packet) -> bool {
    has_required_layers(p) && payload_well_formed(p)
}

/// `rec` is the record that extracting `p` under session `sid` at time
/// `now` yields: every field of every present layer copied or parsed, every
/// absent or unreadable one at its documented default.
pub open spec fn extracted_from(
    rec: PacketRecord,
    p: Packet,
    sid: Seq<char>,
    now: Seq<char>,
) -> bool {
    let frame = frame_fields_of(p);
    let usb = usb_fields_of(p);
    &&& has_required_layers(p)
    &&& rec.session_id@ == sid
    &&& rec.source_file@ == sid
    &&& rec.added_datetime@ == now
    &&& rec.frame_number == u32_field(frame, "frame.number"@)
    &&& rec.timestamp_raw@ == str_field_or(frame, "frame.time_relative"@, ""@)
    &&& rec.timestamp_absolute@ == str_field_or(frame, "frame.time"@, "Unknown"@)
    &&& rec.frame_length == u32_field(frame, "frame.len"@)
    &&& rec.frame_protocols@ == str_field_or(frame, "frame.protocols"@, "Unknown"@)
    &&& rec.direction@ == direction_spec(field_lookup(usb, "usb.endpoint_address.direction"@))
    &&& rec.device_address == u8_field(usb, "usb.device_address"@)
    &&& rec.bus_id == u8_field(usb, "usb.bus_id"@)
    &&& rec.endpoint_address@ == str_field_or(usb, "usb.endpoint_address"@, "Unknown"@)
    &&& rec.endpoint_number == u8_field(usb, "usb.endpoint_address.number"@)
    &&& rec.transfer_type@ == str_field_or(usb, "usb.transfer_type"@, "Unknown"@)
    &&& rec.urb_type@ == str_field_or(usb, "usb.urb_type"@, "Unknown"@)
    &&& rec.urb_status@ == str_field_or(usb, "usb.urb_status"@, "Unknown"@)
    &&& rec.data_length == u32_field(usb, "usb.data_len"@)
    &&& rec.urb_length == u32_field(usb, "usb.urb_len"@)
    &&& rec.payload_hex@ == clean_payload_of(p)
    &&& rec.payload_bytes_hex@ == hex_encoded(hex_decoded(clean_payload_of(p)))
    &&& rec.setup_flag@ == str_field_or(usb, "usb.setup_flag"@, "Unknown"@)
    &&& rec.data_flag@ == str_field_or(usb, "usb.data_flag"@, "Unknown"@)
    &&& rec.interval == u32_field(usb, "usb.interval"@)
    &&& rec.start_frame == u32_field(usb, "usb.start_frame"@)
    &&& opt_str_matches(rec.bmrequest_type, field_lookup(usb, "usb.bmRequestType"@))
    &&& opt_str_matches(rec.brequest, field_lookup(usb, "usb.setup.bRequest"@))
    &&& opt_str_matches(rec.brequest_name, field_lookup(usb, "usb.setup.bRequest.name"@))
    &&& rec.wvalue == opt_u32_field(usb, "usb.setup.wValue"@)
    &&& rec.windex == opt_u32_field(usb, "usb.setup.wIndex"@)
    &&& rec.wlength == opt_u32_field(usb, "usb.setup.wLength"@)
    &&& opt_str_matches(rec.descriptor_type, field_lookup(usb, "usb.bDescriptorType"@))
    &&& rec.descriptor_index == opt_u32_field(usb, "usb.setup.wValue.descriptor_index"@)
    &&& rec.language_id == opt_u32_field(usb, "usb.setup.wValue.language_id"@)
    &&& opt_str_matches(rec.transfer_flags, field_lookup(usb, "usb.transfer_flags"@))
    &&& opt_str_matches(rec.copy_of_transfer_flags, field_lookup(usb, "usb.copy_of_transfer_flags"@))
    &&& rec.urb_id@ == str_field_or(usb, "usb.urb_id"@, "Unknown"@)
    &&& rec.usb_src@ == str_field_or(usb, "usb.src"@, "Unknown"@)
    &&& rec.usb_dst@ == str_field_or(usb, "usb.dst"@, "Unknown"@)
    &&& rec.usb_addr@ == str_field_or(usb, "usb.addr"@, "Unknown"@)
    &&& rec.urb_ts_sec == u64_field(usb, "usb.urb_ts_sec"@)
    &&& rec.urb_ts_usec == u32_field(usb, "usb.urb_ts_usec"@)
}

/// Read a string field, falling back to `dflt` when absent.
fn get_str_or(layer: &Layer, name: &str, dflt: &str) -> (r: String)
    ensures
        r@ == str_field_or(layer.fields@, name@, dflt@),
{
    match layer.metadata(name) {
        Some(v) => v.clone(),
        None => String::from_str(dflt),
    }
}

/// Read a `u32` field, falling back to zero.
fn get_u32(layer: &Layer, name: &str) -> (r: u32)
    ensures
        r == u32_field(layer.fields@, name@),
{
    match layer.metadata(name) {
        Some(v) => match parse_u32(v.as_str()) {
            Some(n) => n,
            None => 0,
        },
        None => 0,
    }
}

/// Read a `u8` field, falling back to zero.
fn get_u8(layer: &Layer, name: &str) -> (r: u8)
    ensures
        r == u8_field(layer.fields@, name@),
{
    match layer.metadata(name) {
        Some(v) => match parse_u8(v.as_str()) {
            Some(n) => n,
            None => 0,
        },
        None => 0,
    }
}

/// Read a `u64` field, falling back to zero.
fn get_u64(layer: &Layer, name: &str) -> (r: u64)
    ensures
        r == u64_field(layer.fields@, name@),
{
    match layer.metadata(name) {
        Some(v) => match parse_u64(v.as_str()) {
            Some(n) => n,
            None => 0,
        },
        None => 0,
    }
}

/// Read a nullable string field.
fn get_opt_str(layer: &Layer, name: &str) -> (r: Option<String>)
    ensures
        opt_str_matches(r, field_lookup(layer.fields@, name@)),
{
    match layer.metadata(name) {
        Some(v) => Some(v.clone()),
        None => None,
    }
}

/// Read a nullable `u32` field: absent when missing or unreadable.
fn get_opt_u32(layer: &Layer, name: &str) -> (r: Option<u32>)
    ensures
        r == opt_u32_field(layer.fields@, name@),
{
    match layer.metadata(name) {
        Some(v) => parse_u32(v.as_str()),
        None => None,
    }
}

/// Map the raw direction field of the `usb` layer to its label.
fn direction_of(usb: &Layer) -> (r: String)
    ensures
        r@ == direction_spec(field_lookup(usb.fields@, "usb.endpoint_address.direction"@)),
{
    match usb.metadata("usb.endpoint_address.direction") {
        Some(v) => {
            if *v == String::from_str("0") {
                String::from_str("H->D")
            } else if *v == String::from_str("1") {
                String::from_str("D->H")
            } else {
                String::from_str("Unknown")
            }
        },
        None => String::from_str("Unknown"),
    }
}

/// Extract one record from one parsed packet.
///
/// Fails with `MissingLayer` when the `frame` or `usb` layer is absent, and
/// with `MalformedPayload` when the colon-stripped payload hex does not
/// decode; on success every field of the record is pinned by
/// [`extracted_from`].
pub fn extract(packet: &Packet, session_id: &str, added_datetime: &str) -> (r: Result<
    PacketRecord,
    ExtractError,
>)
    ensures
        r is Ok <==> extract_ok(*packet),
        !has_required_layers(*packet) ==> (r matches Err(e) && e is MissingLayer),
        has_required_layers(*packet) && !payload_well_formed(*packet) ==> (r matches Err(e)
            && e is MalformedPayload),
        r matches Ok(rec) ==> extracted_from(rec, *packet, session_id@, added_datetime@),
{
    let frame = match packet.layer_name("frame") {
        Some(l) => l,
        None => {
            return Err(ExtractError::MissingLayer);
        },
    };
    let usb = match packet.layer_name("usb") {
        Some(l) => l,
        None => {
            return Err(ExtractError::MissingLayer);
        },
    };
    let raw_payload = get_str_or(usb, "usb.capdata", "");
    let payload_hex = strip_colons(raw_payload.as_str());
    let payload_bytes: Vec<u8> = if payload_hex.as_str().is_empty() {
        proof {
            assert(valid_hex(payload_hex@));
        }
        Vec::new()
    } else {
        match hex_decode(payload_hex.as_str()) {
            Ok(b) => b,
            Err(_) => {
                return Err(ExtractError::MalformedPayload);
            },
        }
    };
    proof {
        assert(payload_bytes@ == hex_decoded(payload_hex@));
    }
    let payload_bytes_hex = hex_encode(&payload_bytes);

    Ok(
        PacketRecord {
            session_id: String::from_str(session_id),
            frame_number: get_u32(frame, "frame.number"),
            timestamp_raw: get_str_or(frame, "frame.time_relative", ""),
            timestamp_absolute: get_str_or(frame, "frame.time", "Unknown"),
            direction: direction_of(usb),
            device_address: get_u8(usb, "usb.device_address"),
            bus_id: get_u8(usb, "usb.bus_id"),
            endpoint_address: get_str_or(usb, "usb.endpoint_address", "Unknown"),
            endpoint_number: get_u8(usb, "usb.endpoint_address.number"),
            transfer_type: get_str_or(usb, "usb.transfer_type", "Unknown"),
            urb_type: get_str_or(usb, "usb.urb_type", "Unknown"),
            urb_status: get_str_or(usb, "usb.urb_status", "Unknown"),
            data_length: get_u32(usb, "usb.data_len"),
            urb_length: get_u32(usb, "usb.urb_len"),
            payload_hex,
            payload_bytes_hex,
            setup_flag: get_str_or(usb, "usb.setup_flag", "Unknown"),
            data_flag: get_str_or(usb, "usb.data_flag", "Unknown"),
            interval: get_u32(usb, "usb.interval"),
            start_frame: get_u32(usb, "usb.start_frame"),
            frame_length: get_u32(frame, "frame.len"),
            frame_protocols: get_str_or(frame, "frame.protocols", "Unknown"),
            source_file: String::from_str(session_id),
            bmrequest_type: get_opt_str(usb, "usb.bmRequestType"),
            brequest: get_opt_str(usb, "usb.setup.bRequest"),
            brequest_name: get_opt_str(usb, "usb.setup.bRequest.name"),
            wvalue: get_opt_u32(usb, "usb.setup.wValue"),
            windex: get_opt_u32(usb, "usb.setup.wIndex"),
            wlength: get_opt_u32(usb, "usb.setup.wLength"),
            descriptor_type: get_opt_str(usb, "usb.bDescriptorType"),
            descriptor_index: get_opt_u32(usb, "usb.setup.wValue.descriptor_index"),
            language_id: get_opt_u32(usb, "usb.setup.wValue.language_id"),
            transfer_flags: get_opt_str(usb, "usb.transfer_flags"),
            copy_of_transfer_flags: get_opt_str(usb, "usb.copy_of_transfer_flags"),
            urb_id: get_str_or(usb, "usb.urb_id", "Unknown"),
            usb_src: get_str_or(usb, "usb.src", "Unknown"),
            usb_dst: get_str_or(usb, "usb.dst", "Unknown"),
            usb_addr: get_str_or(usb, "usb.addr", "Unknown"),
            urb_ts_sec: get_u64(usb, "usb.urb_ts_sec"),
            urb_ts_usec: get_u32(usb, "usb.urb_ts_usec"),
            added_datetime: String::from_str(added_datetime),
        },
    )
}

/// Payload round trip, seen on any extracted record: the re-encoded byte
/// column equals the canonical payload hex column with its digits folded to
/// lowercase.
pub proof fn lemma_record_payload_round_trip(
    rec: PacketRecord,
    p: Packet,
    sid: Seq<char>,
    now: Seq<char>,
)
    requires
        extract_ok(p),
        extracted_from(rec, p, sid, now),
    ensures
        rec.payload_bytes_hex@ == crate::codec::lower_hex_of(rec.payload_hex@),
{
    crate::codec::lemma_hex_round_trip(clean_payload_of(p));
}

/// How many of the packets extraction accepts.
pub open spec fn count_ok(ps: Seq<Packet>) -> int
    decreases ps.len(),
{
    if ps.len() == 0 {
        0
    } else {
        count_ok(ps.drop_last()) + if extract_ok(ps.last()) {
            1int
        } else {
            0int
        }
    }
}

/// How many of the packets extraction drops.
pub open spec fn count_dropped(ps: Seq<Packet>) -> int
    decreases ps.len(),
{
    if ps.len() == 0 {
        0
    } else {
        count_dropped(ps.drop_last()) + if extract_ok(ps.last()) {
            0int
        } else {
            1int
        }
    }
}

/// Batch accounting: the accepted and the dropped packets partition the
/// stream, so the batch size is the packets seen minus those dropped for a
/// missing layer or a malformed payload.
pub proof fn lemma_batch_accounting(ps: Seq<Packet>)
    ensures
        count_ok(ps) + count_dropped(ps) == ps.len(),
        0 <= count_ok(ps) <= ps.len(),
    decreases ps.len(),
{
    if ps.len() > 0 {
        lemma_batch_accounting(ps.drop_last());
    }
}

proof fn lemma_count_ok_step(ps: Seq<Packet>, i: int)
    requires
        0 <= i < ps.len(),
    ensures
        count_ok(ps.take(i + 1)) == count_ok(ps.take(i)) + if extract_ok(ps[i]) {
            1int
        } else {
            0int
        },
{
    assert(ps.take(i + 1).drop_last() =~= ps.take(i));
    assert(ps.take(i + 1).last() == ps[i]);
}

/// `rs` is the batch that extracting `ps` yields: one record per accepted
/// packet, in stream order, each pinned by [`extracted_from`].
pub open spec fn batch_extracted(
    rs: Seq<PacketRecord>,
    ps: Seq<Packet>,
    sid: Seq<char>,
    now: Seq<char>,
) -> bool {
    &&& rs.len() == count_ok(ps)
    &&& forall|i: int|
        0 <= i < ps.len() && extract_ok(#[trigger] ps[i]) ==> 0 <= count_ok(ps.take(i)) < rs.len()
            && extracted_from(rs[count_ok(ps.take(i))], ps[i], sid, now)
}

/// Extract a whole stream of packets: accepted packets become records in
/// stream order; packets with a missing layer or a malformed payload are
/// silently dropped.
pub fn extract_batch(packets: &Vec<Packet>, session_id: &str, added_datetime: &str) -> (r: Vec<
    PacketRecord,
>)
    ensures
        batch_extracted(r@, packets@, session_id@, added_datetime@),
{
    let n = packets.len();
    let mut out: Vec<PacketRecord> = Vec::new();
    let mut i: usize = 0;
    proof {
        assert(packets@.take(0) =~= Seq::<Packet>::empty());
    }
    while i < n
        invariant
            0 <= i <= n,
            n == packets@.len(),
            out@.len() == count_ok(packets@.take(i as int)),
            forall|j: int|
                0 <= j < i && extract_ok(#[trigger] packets@[j]) ==> 0 <= count_ok(
                    packets@.take(j),
                ) < out@.len() && extracted_from(
                    out@[count_ok(packets@.take(j))],
                    packets@[j],
                    session_id@,
                    added_datetime@,
                ),
        decreases n - i,
    {
        proof {
            lemma_count_ok_step(packets@, i as int);
        }
        match extract(&packets[i], session_id, added_datetime) {
            Ok(rec) => {
                out.push(rec);
            },
            Err(_) => {},
        }
        i = i + 1;
    }
    proof {
        assert(packets@.take(n as int) =~= packets@);
    }
    out
}

/// Relies on `chrono::Utc::now` and `DateTime::to_rfc3339` for the current
/// wall-clock instant as an ISO-8601 timestamp. The value varies per call,
/// so nothing is promised of it.
#[verifier::external_body]
fn now_rfc3339() -> String {
    chrono::Utc::now().to_rfc3339()
}

/// Extract one packet, stamping the record with the wall clock now.
///
/// The clock is the one source of per-run variation: every other field of
/// the result is the pure function of the packet that [`extract`] pins.
pub fn extract_now(packet: &Packet, session_id: &str) -> (r: Result<PacketRecord, ExtractError>)
    ensures
        r is Ok <==> extract_ok(*packet),
        !has_required_layers(*packet) ==> (r matches Err(e) && e is MissingLayer),
        has_required_layers(*packet) && !payload_well_formed(*packet) ==> (r matches Err(e)
            && e is MalformedPayload),
        r matches Ok(rec) ==> exists|now: Seq<char>|
            extracted_from(rec, *packet, session_id@, now),
{
    let now = now_rfc3339();
    let r = extract(packet, session_id, now.as_str());
    proof {
        if r is Ok {
            assert(extracted_from(r.unwrap(), *packet, session_id@, now@));
        }
    }
    r
}

/// Extract a whole stream, stamping every record with one wall-clock
/// sample taken at the start of the run.
pub fn extract_batch_now(packets: &Vec<Packet>, session_id: &str) -> (r: Vec<PacketRecord>)
    ensures
        r@.len() == count_ok(packets@),
        exists|now: Seq<char>| batch_extracted(r@, packets@, session_id@, now),
{
    let now = now_rfc3339();
    let r = extract_batch(packets, session_id, now.as_str());
    proof {
        assert(batch_extracted(r@, packets@, session_id@, now@));
    }
    r
}

} // verus!
