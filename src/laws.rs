//! Properties of the codec, proved over the wire format.

use vstd::prelude::*;
use crate::array_order::{reversed, reversed_rows};
use crate::bytes::{be32, be32_at, be64, le32, lemma_be32, lemma_be64, lemma_le32};
use crate::packet::{
    DecodeError, DeviceConfig, DevicePacket, DevicePacketModel, Direction, Packet, Quaternion,
    ServerPacket, ServerPacketModel, Vector,
};
use crate::wire::{
    config_at, config_bytes, device_decoding, device_discriminant, device_encodable,
    device_packet_bytes, device_payload_at, device_payload_bytes, quaternion_at, quaternion_bytes,
    row_at, row_bytes, server_decoding, server_discriminant, server_packet_bytes,
    server_payload_at, server_payload_bytes, vector_at, vector_bytes, CONFIG_LEN, HEADER_LEN,
};

verus! {

/// Reversing a sequence twice gives it back.
pub proof fn lemma_reversed_involution<T>(s: Seq<T>)
    ensures
        reversed(reversed(s)) == s,
{
    assert(reversed(reversed(s)) =~= s);
}

/// Reversing a matrix twice, rows and elements, gives it back.
pub proof fn lemma_reversed_rows_involution<T>(m: Seq<Seq<T>>)
    ensures
        reversed_rows(reversed_rows(m)) == m,
{
    assert forall|i: int| 0 <= i < m.len() implies #[trigger] reversed_rows(reversed_rows(m))[i]
        == m[i] by {
        lemma_reversed_involution(m[i]);
    }
    assert(reversed_rows(reversed_rows(m)) =~= m);
}

proof fn lemma_part(s: Seq<u8>, i: int, j: int, x: Seq<u8>, a: int, b: int)
    requires
        0 <= i <= j <= s.len(),
        s.subrange(i, j) == x,
        0 <= a <= b <= j - i,
    ensures
        s.subrange(i + a, i + b) == x.subrange(a, b),
{
    assert(s.subrange(i + a, i + b) =~= x.subrange(a, b));
}

proof fn lemma_row(s: Seq<u8>, i: int, a: Seq<u32>)
    requires
        0 <= i,
        i + 12 <= s.len(),
        a.len() == 3,
        s.subrange(i, i + 12) == row_bytes(a),
    ensures
        row_at(s, i) == a,
{
    let x = row_bytes(a);
    lemma_part(s, i, i + 12, x, 0, 4);
    lemma_part(s, i, i + 12, x, 4, 8);
    lemma_part(s, i, i + 12, x, 8, 12);
    assert(x.subrange(0, 4) =~= le32(a[0]));
    assert(x.subrange(4, 8) =~= le32(a[1]));
    assert(x.subrange(8, 12) =~= le32(a[2]));
    lemma_le32(s, i, a[0]);
    lemma_le32(s, i + 4, a[1]);
    lemma_le32(s, i + 8, a[2]);
    assert(row_at(s, i) =~= a);
}

/// A configuration block read back from its encoding is the block itself:
/// the calibration arrays come back in their logical order.
pub proof fn lemma_config_round_trip(c: DeviceConfig)
    ensures
        config_bytes(c@).len() == CONFIG_LEN,
        config_at(config_bytes(c@), 0) == c@,
{
    reveal(config_at);
    reveal(config_bytes);
    let m = c@;
    let cal = m.calibration;
    let s = config_bytes(m);
    let mc = reversed_rows(cal.mag_correction);
    let ac = reversed_rows(cal.accel_correction);
    assert(s.subrange(0, 12) =~= row_bytes(reversed(cal.gyro_bias)));
    assert(s.subrange(12, 24) =~= row_bytes(mc[0]));
    assert(s.subrange(24, 36) =~= row_bytes(mc[1]));
    assert(s.subrange(36, 48) =~= row_bytes(mc[2]));
    assert(s.subrange(48, 60) =~= row_bytes(reversed(cal.mag_bias)));
    assert(s.subrange(60, 72) =~= row_bytes(ac[0]));
    assert(s.subrange(72, 84) =~= row_bytes(ac[1]));
    assert(s.subrange(84, 96) =~= row_bytes(ac[2]));
    assert(s.subrange(96, 108) =~= row_bytes(reversed(cal.accel_bias)));
    assert(s.subrange(108, 112) =~= le32(m.device_id));
    assert(s.subrange(112, 116) =~= le32(m.device_mode));
    lemma_row(s, 0, reversed(cal.gyro_bias));
    lemma_row(s, 12, mc[0]);
    lemma_row(s, 24, mc[1]);
    lemma_row(s, 36, mc[2]);
    lemma_row(s, 48, reversed(cal.mag_bias));
    lemma_row(s, 60, ac[0]);
    lemma_row(s, 72, ac[1]);
    lemma_row(s, 84, ac[2]);
    lemma_row(s, 96, reversed(cal.accel_bias));
    lemma_le32(s, 108, m.device_id);
    lemma_le32(s, 112, m.device_mode);
    assert(seq![row_at(s, 12), row_at(s, 24), row_at(s, 36)] =~= mc);
    assert(seq![row_at(s, 60), row_at(s, 72), row_at(s, 84)] =~= ac);
    lemma_reversed_involution(cal.gyro_bias);
    lemma_reversed_involution(cal.mag_bias);
    lemma_reversed_involution(cal.accel_bias);
    lemma_reversed_rows_involution(cal.mag_correction);
    lemma_reversed_rows_involution(cal.accel_correction);
}

proof fn lemma_quaternion(s: Seq<u8>, i: int, q: Quaternion)
    requires
        0 <= i,
        i + 16 <= s.len(),
        s.subrange(i, i + 16) == quaternion_bytes(q),
    ensures
        quaternion_at(s, i) == q,
{
    let x = quaternion_bytes(q);
    lemma_part(s, i, i + 16, x, 0, 4);
    lemma_part(s, i, i + 16, x, 4, 8);
    lemma_part(s, i, i + 16, x, 8, 12);
    lemma_part(s, i, i + 16, x, 12, 16);
    assert(x.subrange(0, 4) =~= be32(q.x));
    assert(x.subrange(4, 8) =~= be32(q.y));
    assert(x.subrange(8, 12) =~= be32(q.z));
    assert(x.subrange(12, 16) =~= be32(q.w));
    lemma_be32(s, i, q.x);
    lemma_be32(s, i + 4, q.y);
    lemma_be32(s, i + 8, q.z);
    lemma_be32(s, i + 12, q.w);
}

proof fn lemma_vector(s: Seq<u8>, i: int, v: Vector)
    requires
        0 <= i,
        i + 16 <= s.len(),
        s.subrange(i, i + 16) == vector_bytes(v),
    ensures
        vector_at(s, i) == v,
{
    let x = vector_bytes(v);
    lemma_part(s, i, i + 16, x, 0, 4);
    lemma_part(s, i, i + 16, x, 4, 8);
    lemma_part(s, i, i + 16, x, 8, 12);
    assert(x.subrange(0, 4) =~= be32(v.x));
    assert(x.subrange(4, 8) =~= be32(v.y));
    assert(x.subrange(8, 12) =~= be32(v.z));
    lemma_be32(s, i, v.x);
    lemma_be32(s, i + 4, v.y);
    lemma_be32(s, i + 8, v.z);
}

#[verifier::rlimit(40)]
proof fn lemma_device_payload_round_trip(p: DevicePacket)
    requires
        device_encodable(p@),
    ensures
        device_payload_at(device_discriminant(p@), device_payload_bytes(p@)) == Ok::<
            DevicePacketModel,
            DecodeError,
        >(p@),
{
    let s = device_payload_bytes(p@);
    match p {
        DevicePacket::Heartbeat(v) => {
            assert(s.subrange(0, 8) =~= be64(v));
            lemma_be64(s, 0, v);
        },
        DevicePacket::Rotation(q) => {
            assert(s.subrange(0, 16) =~= s);
            lemma_quaternion(s, 0, q);
        },
        DevicePacket::Handshake { board, imu, mcu, build_number, version } => {
            assert(s.subrange(0, 4) =~= be32(board));
            assert(s.subrange(4, 8) =~= be32(imu));
            assert(s.subrange(8, 12) =~= be32(mcu));
            assert(s.subrange(24, 28) =~= be32(build_number));
            lemma_be32(s, 0, board);
            lemma_be32(s, 4, imu);
            lemma_be32(s, 8, mcu);
            lemma_be32(s, 24, build_number);
            assert(s[28] == version@.len() as u8);
            assert(s.subrange(29, 29 + s[28]) =~= version@);
        },
        DevicePacket::Accelerometer(v) => {
            assert(s.subrange(0, 16) =~= s);
            lemma_vector(s, 0, v);
        },
        DevicePacket::Magnetometer(v) => {
            assert(s.subrange(0, 16) =~= s);
            lemma_vector(s, 0, v);
        },
        DevicePacket::RawMagnetometer(v) => {
            assert(s.subrange(0, 16) =~= s);
            lemma_vector(s, 0, v);
        },
        DevicePacket::Config(c) => {
            lemma_config_round_trip(c);
        },
        DevicePacket::RotationData(r) => {
            let x = quaternion_bytes(r.rotation);
            assert(s.subrange(2, 18) =~= x);
            lemma_quaternion(s, 2, r.rotation);
        },
        _ => {},
    }
}

proof fn lemma_server_payload_round_trip(p: ServerPacket)
    ensures
        server_payload_at(server_discriminant(p@), server_payload_bytes(p@)) == Ok::<
            ServerPacketModel,
            DecodeError,
        >(p@),
{
    let s = server_payload_bytes(p@);
    match p {
        ServerPacket::Command { cmd, data } => {
            assert(s.subrange(1, s.len() as int) =~= data@);
        },
        ServerPacket::SetConfig(c) => {
            lemma_config_round_trip(c);
        },
        _ => {},
    }
}

/// Decoding the encoding of a device envelope gives back that envelope,
/// for every variant whose version fits its length prefix.
pub proof fn lemma_device_round_trip(p: Packet<DevicePacket>)
    requires
        device_encodable(p@.inner),
    ensures
        device_decoding(device_packet_bytes(p@)) == Ok::<Packet<DevicePacketModel>, DecodeError>(
            p@,
        ),
{
    let s = device_packet_bytes(p@);
    assert(s.subrange(0, 4) =~= be32(device_discriminant(p@.inner)));
    assert(s.subrange(4, 12) =~= be64(p.packet_number));
    lemma_be32(s, 0, device_discriminant(p@.inner));
    lemma_be64(s, 4, p.packet_number);
    assert(s.subrange(12, s.len() as int) =~= device_payload_bytes(p@.inner));
    lemma_device_payload_round_trip(p.inner);
}

/// Decoding the encoding of a server envelope gives back that envelope.
pub proof fn lemma_server_round_trip(p: Packet<ServerPacket>)
    ensures
        server_decoding(server_packet_bytes(p@)) == Ok::<Packet<ServerPacketModel>, DecodeError>(
            p@,
        ),
{
    let s = server_packet_bytes(p@);
    assert(s.subrange(0, 4) =~= be32(server_discriminant(p@.inner)));
    assert(s.subrange(4, 12) =~= be64(p.packet_number));
    lemma_be32(s, 0, server_discriminant(p@.inner));
    lemma_be64(s, 4, p.packet_number);
    assert(s.subrange(12, s.len() as int) =~= server_payload_bytes(p@.inner));
    lemma_server_payload_round_trip(p.inner);
}

/// The discriminants of the device taxonomy.
pub open spec fn is_device_discriminant(d: u32) -> bool {
    d == 0 || d == 1 || d == 2 || d == 3 || d == 4 || d == 5 || d == 8 || d == 9 || d == 10 || d
        == 14 || d == 15 || d == 17
}

/// The discriminants of the server taxonomy.
pub open spec fn is_server_discriminant(d: u32) -> bool {
    d == 1 || d == 2 || d == 3 || d == 4 || d == 8 || d == 10 || d == 15
}

/// Encoding writes a device packet's discriminant first, and decoding
/// yields a variant whose discriminant is the one read from the buffer.
pub proof fn lemma_device_discriminant_inverse(p: Packet<DevicePacket>, s: Seq<u8>)
    ensures
        be32_at(device_packet_bytes(p@), 0) == device_discriminant(p@.inner),
        is_device_discriminant(device_discriminant(p@.inner)),
        device_decoding(s) matches Ok(q) ==> device_discriminant(q.inner) == be32_at(s, 0),
{
    let b = device_packet_bytes(p@);
    assert(b.subrange(0, 4) =~= be32(device_discriminant(p@.inner)));
    lemma_be32(b, 0, device_discriminant(p@.inner));
}

/// Encoding writes a server packet's discriminant first, and decoding
/// yields a variant whose discriminant is the one read from the buffer.
pub proof fn lemma_server_discriminant_inverse(p: Packet<ServerPacket>, s: Seq<u8>)
    ensures
        be32_at(server_packet_bytes(p@), 0) == server_discriminant(p@.inner),
        is_server_discriminant(server_discriminant(p@.inner)),
        server_decoding(s) matches Ok(q) ==> server_discriminant(q.inner) == be32_at(s, 0),
{
    let b = server_packet_bytes(p@);
    assert(b.subrange(0, 4) =~= be32(server_discriminant(p@.inner)));
    lemma_be32(b, 0, server_discriminant(p@.inner));
}

/// A full header whose discriminant no device variant has is rejected with
/// that discriminant, and only such a header is.
pub proof fn lemma_device_unknown_discriminant(s: Seq<u8>)
    requires
        s.len() >= HEADER_LEN,
    ensures
        (device_decoding(s) == Err::<Packet<DevicePacketModel>, DecodeError>(
            DecodeError::UnknownDiscriminant {
                direction: Direction::DeviceOrigin,
                value: be32_at(s, 0),
            },
        )) <==> !is_device_discriminant(be32_at(s, 0)),
{
}

/// A full header whose discriminant no server variant has is rejected with
/// that discriminant, and only such a header is.
pub proof fn lemma_server_unknown_discriminant(s: Seq<u8>)
    requires
        s.len() >= HEADER_LEN,
    ensures
        (server_decoding(s) == Err::<Packet<ServerPacketModel>, DecodeError>(
            DecodeError::UnknownDiscriminant {
                direction: Direction::ServerOrigin,
                value: be32_at(s, 0),
            },
        )) <==> !is_server_discriminant(be32_at(s, 0)),
{
}

/// The fewest payload bytes a device variant needs.
pub open spec fn device_min_payload_len(d: u32) -> int {
    if d == 0 {
        8
    } else if d == 1 || d == 4 || d == 5 || d == 9 {
        16
    } else if d == 3 {
        29
    } else if d == 8 {
        116
    } else if d == 15 {
        2
    } else if d == 17 {
        19
    } else {
        0
    }
}

/// The fewest payload bytes a server variant needs.
pub open spec fn server_min_payload_len(d: u32) -> int {
    if d == 4 {
        1
    } else if d == 8 {
        116
    } else {
        0
    }
}

/// A buffer too short for the header, or for its variant's fixed fields,
/// is rejected as truncated: it never decodes.
pub proof fn lemma_device_truncation(s: Seq<u8>)
    requires
        s.len() < HEADER_LEN || s.len() < HEADER_LEN + device_min_payload_len(be32_at(s, 0)),
    ensures
        device_decoding(s) matches Err(DecodeError::Truncated { expected, remaining }) && remaining
            < expected,
{
}

/// A buffer too short for the header, or for its variant's fixed fields,
/// is rejected as truncated: it never decodes.
pub proof fn lemma_server_truncation(s: Seq<u8>)
    requires
        s.len() < HEADER_LEN || s.len() < HEADER_LEN + server_min_payload_len(be32_at(s, 0)),
    ensures
        server_decoding(s) matches Err(DecodeError::Truncated { expected, remaining }) && remaining
            < expected,
{
}

} // verus!
