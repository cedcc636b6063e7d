//! Encoding and decoding of envelopes, checked against the wire format.

use vstd::prelude::*;
use crate::array_order::{matrix_view, reverse, reverse_nested};
use crate::bytes::{
    lemma_tail_reads, push_be32, push_be64, push_le32, push_range, read_be32, read_be64, read_le32,
};
use crate::packet::{
    CalibrationConfig, DecodeError, DeviceConfig, DevicePacket, DevicePacketModel, Direction,
    EncodeError, Packet, PrefixedField, Quaternion, RotationData, ServerPacket, ServerPacketModel,
    Vector,
};
use crate::wire::{
    config_bytes, device_discriminant, device_encodable, device_packet_bytes,
    device_payload_bytes, matrix_bytes, quaternion_bytes, row_bytes, server_discriminant,
    server_packet_bytes, server_payload_bytes, vector_bytes, MAX_VERSION_LEN, config_at,
    device_decoding, device_payload_at, quaternion_at, row_at, server_decoding, server_payload_at,
    vector_at, CONFIG_LEN, HANDSHAKE_FIXED_LEN, HEADER_LEN, QUATERNION_LEN, ROTATION_DATA_LEN,
};

verus! {

impl DevicePacket {
    /// The discriminant that selects this variant on the wire.
    pub fn packet_type(&self) -> (r: u32)
        ensures
            r == device_discriminant(self@),
    {
        match self {
            DevicePacket::Heartbeat(_) => 0,
            DevicePacket::Rotation(_) => 1,
            DevicePacket::Gyroscope => 2,
            DevicePacket::Handshake { .. } => 3,
            DevicePacket::Accelerometer(_) => 4,
            DevicePacket::Magnetometer(_) => 5,
            DevicePacket::Config(_) => 8,
            DevicePacket::RawMagnetometer(_) => 9,
            DevicePacket::PingPong(_) => 10,
            DevicePacket::ResetReason => 14,
            DevicePacket::SensorInfo { .. } => 15,
            DevicePacket::RotationData(_) => 17,
        }
    }
}

impl ServerPacket {
    /// The discriminant that selects this variant on the wire.
    pub fn packet_type(&self) -> (r: u32)
        ensures
            r == server_discriminant(self@),
    {
        match self {
            ServerPacket::Heartbeat => 1,
            ServerPacket::Vibrate => 2,
            ServerPacket::Handshake => 3,
            ServerPacket::Command { .. } => 4,
            ServerPacket::SetConfig(_) => 8,
            ServerPacket::PingPong(_) => 10,
            ServerPacket::SensorInfo => 15,
        }
    }
}

fn push_quaternion(out: &mut Vec<u8>, q: Quaternion)
    ensures
        final(out)@ == old(out)@ + quaternion_bytes(q),
{
    push_be32(out, q.x);
    push_be32(out, q.y);
    push_be32(out, q.z);
    push_be32(out, q.w);
    assert(out@ =~= old(out)@ + quaternion_bytes(q));
}

fn push_vector(out: &mut Vec<u8>, v: Vector)
    ensures
        final(out)@ == old(out)@ + vector_bytes(v),
{
    push_be32(out, v.x);
    push_be32(out, v.y);
    push_be32(out, v.z);
    push_be32(out, 0);
    assert(out@ =~= old(out)@ + vector_bytes(v));
}

fn push_row(out: &mut Vec<u8>, a: [u32; 3])
    ensures
        final(out)@ == old(out)@ + row_bytes(a@),
{
    push_le32(out, a[0]);
    push_le32(out, a[1]);
    push_le32(out, a[2]);
    assert(out@ =~= old(out)@ + row_bytes(a@));
}

fn push_matrix(out: &mut Vec<u8>, m: [[u32; 3]; 3])
    ensures
        final(out)@ == old(out)@ + matrix_bytes(matrix_view(m)),
{
    let r = reverse_nested(m);
    assert(matrix_view(r)[0] == r@[0]@ && matrix_view(r)[1] == r@[1]@ && matrix_view(r)[2]
        == r@[2]@);
    push_row(out, r[0]);
    push_row(out, r[1]);
    push_row(out, r[2]);
    assert(out@ =~= old(out)@ + matrix_bytes(matrix_view(m)));
}

/// Appends the configuration block, little-endian, arrays back to front.
fn push_config(out: &mut Vec<u8>, c: &DeviceConfig)
    ensures
        final(out)@ == old(out)@ + config_bytes(c@),
{
    reveal(config_bytes);
    let cal = &c.calibration;
    push_row(out, reverse(cal.gyro_bias));
    push_matrix(out, cal.mag_correction);
    push_row(out, reverse(cal.mag_bias));
    push_matrix(out, cal.accel_correction);
    push_row(out, reverse(cal.accel_bias));
    push_le32(out, c.device_id);
    push_le32(out, c.device_mode);
    assert(out@ =~= old(out)@ + config_bytes(c@));
}

fn push_device_payload(out: &mut Vec<u8>, p: &DevicePacket)
    requires
        device_encodable(p@),
    ensures
        final(out)@ == old(out)@ + device_payload_bytes(p@),
{
    match p {
        DevicePacket::Heartbeat(v) => push_be64(out, *v),
        DevicePacket::Rotation(q) => push_quaternion(out, *q),
        DevicePacket::Handshake { board, imu, mcu, build_number, version } => {
            push_be32(out, *board);
            push_be32(out, *imu);
            push_be32(out, *mcu);
            push_be32(out, 0);
            push_be32(out, 0);
            push_be32(out, 0);
            push_be32(out, *build_number);
            out.push(version.len() as u8);
            push_range(out, version.as_slice(), 0, version.len());
            assert(version@.subrange(0, version@.len() as int) =~= version@);
            assert(out@ =~= old(out)@ + device_payload_bytes(p@));
        },
        DevicePacket::Accelerometer(v) => push_vector(out, *v),
        DevicePacket::Magnetometer(v) => push_vector(out, *v),
        DevicePacket::Config(c) => push_config(out, c),
        DevicePacket::RawMagnetometer(v) => push_vector(out, *v),
        DevicePacket::PingPong(d) => {
            push_range(out, d.as_slice(), 0, d.len());
            assert(d@.subrange(0, d@.len() as int) =~= d@);
        },
        DevicePacket::SensorInfo { sensor_id, status } => {
            out.push(*sensor_id);
            out.push(*status);
            assert(out@ =~= old(out)@ + device_payload_bytes(p@));
        },
        DevicePacket::RotationData(r) => {
            out.push(r.sensor_id);
            out.push(r.data_type);
            push_quaternion(out, r.rotation);
            out.push(r.accuracy);
            assert(out@ =~= old(out)@ + device_payload_bytes(p@));
        },
        _ => {
            assert(out@ =~= old(out)@ + device_payload_bytes(p@));
        },
    }
}

fn push_server_payload(out: &mut Vec<u8>, p: &ServerPacket)
    ensures
        final(out)@ == old(out)@ + server_payload_bytes(p@),
{
    match p {
        ServerPacket::Command { cmd, data } => {
            out.push(*cmd);
            push_range(out, data.as_slice(), 0, data.len());
            assert(data@.subrange(0, data@.len() as int) =~= data@);
            assert(out@ =~= old(out)@ + server_payload_bytes(p@));
        },
        ServerPacket::SetConfig(c) => push_config(out, c),
        ServerPacket::PingPong(d) => {
            push_range(out, d.as_slice(), 0, d.len());
            assert(d@.subrange(0, d@.len() as int) =~= d@);
        },
        _ => {
            assert(out@ =~= old(out)@ + server_payload_bytes(p@));
        },
    }
}

/// Encodes a device envelope. Fails only where a handshake's version is
/// longer than its one-byte length prefix can state.
pub fn encode_device(p: &Packet<DevicePacket>) -> (r: Result<Vec<u8>, EncodeError>)
    ensures
        r is Ok <==> device_encodable(p@.inner),
        r matches Ok(b) ==> b@ == device_packet_bytes(p@),
        r matches Err(e) ==> (p@.inner matches DevicePacketModel::Handshake { version, .. } && e
            == (EncodeError::LengthPrefixOverflow {
            field: PrefixedField::HandshakeVersion,
            actual: version.len() as usize,
            max: MAX_VERSION_LEN,
        })),
{
    if let DevicePacket::Handshake { version, .. } = &p.inner {
        if version.len() > MAX_VERSION_LEN {
            return Err(
                EncodeError::LengthPrefixOverflow {
                    field: PrefixedField::HandshakeVersion,
                    actual: version.len(),
                    max: MAX_VERSION_LEN,
                },
            );
        }
    }
    let mut out: Vec<u8> = Vec::new();
    push_be32(&mut out, p.inner.packet_type());
    push_be64(&mut out, p.packet_number);
    push_device_payload(&mut out, &p.inner);
    assert(out@ =~= device_packet_bytes(p@));
    Ok(out)
}

/// Encodes a server envelope.
pub fn encode_server(p: &Packet<ServerPacket>) -> (r: Vec<u8>)
    ensures
        r@ == server_packet_bytes(p@),
{
    let mut out: Vec<u8> = Vec::new();
    push_be32(&mut out, p.inner.packet_type());
    push_be64(&mut out, p.packet_number);
    push_server_payload(&mut out, &p.inner);
    assert(out@ =~= server_packet_bytes(p@));
    out
}

fn read_quaternion(buf: &[u8], pos: usize) -> (r: Quaternion)
    requires
        pos + 16 <= buf.len(),
    ensures
        r == quaternion_at(buf@, pos as int),
{
    Quaternion {
        x: read_be32(buf, pos),
        y: read_be32(buf, pos + 4),
        z: read_be32(buf, pos + 8),
        w: read_be32(buf, pos + 12),
    }
}

fn read_vector(buf: &[u8], pos: usize) -> (r: Vector)
    requires
        pos + 16 <= buf.len(),
    ensures
        r == vector_at(buf@, pos as int),
{
    Vector { x: read_be32(buf, pos), y: read_be32(buf, pos + 4), z: read_be32(buf, pos + 8) }
}

fn read_row(buf: &[u8], pos: usize) -> (r: [u32; 3])
    requires
        pos + 12 <= buf.len(),
    ensures
        r@ == row_at(buf@, pos as int),
{
    let r = [read_le32(buf, pos), read_le32(buf, pos + 4), read_le32(buf, pos + 8)];
    assert(r@ =~= row_at(buf@, pos as int));
    r
}

fn read_matrix(buf: &[u8], pos: usize) -> (r: [[u32; 3]; 3])
    requires
        pos + 36 <= buf.len(),
    ensures
        matrix_view(r) == crate::wire::matrix_at(buf@, pos as int),
{
    let m = [read_row(buf, pos), read_row(buf, pos + 12), read_row(buf, pos + 24)];
    assert(matrix_view(m) =~= seq![
        row_at(buf@, pos as int),
        row_at(buf@, pos + 12),
        row_at(buf@, pos + 24),
    ]);
    reverse_nested(m)
}

/// Reads the configuration block at `pos`, restoring the logical order of
/// each calibration array.
fn read_config(buf: &[u8], pos: usize) -> (r: DeviceConfig)
    requires
        pos + CONFIG_LEN <= buf.len(),
    ensures
        r@ == config_at(buf@, pos as int),
{
    reveal(config_at);
    DeviceConfig {
        calibration: CalibrationConfig {
            gyro_bias: reverse(read_row(buf, pos)),
            mag_correction: read_matrix(buf, pos + 12),
            mag_bias: reverse(read_row(buf, pos + 48)),
            accel_correction: read_matrix(buf, pos + 60),
            accel_bias: reverse(read_row(buf, pos + 96)),
        },
        device_id: read_le32(buf, pos + 108),
        device_mode: read_le32(buf, pos + 112),
    }
}

proof fn lemma_config_in_tail(s: Seq<u8>, i: int)
    requires
        0 <= i,
        i + CONFIG_LEN <= s.len(),
    ensures
        config_at(s.subrange(i, s.len() as int), 0) == config_at(s, i),
{
    reveal(config_at);
    lemma_tail_reads(s, i);
    let t = s.subrange(i, s.len() as int);
    assert forall|j: int| 0 <= j && i + j + 12 <= s.len() implies #[trigger] row_at(t, j) == row_at(
        s,
        i + j,
    ) by {
        assert(row_at(t, j) =~= row_at(s, i + j));
    }
}

/// A copy of `buf[from..to]`.
fn copy_range(buf: &[u8], from: usize, to: usize) -> (r: Vec<u8>)
    requires
        from <= to <= buf.len(),
    ensures
        r@ == buf@.subrange(from as int, to as int),
{
    let mut out: Vec<u8> = Vec::new();
    push_range(&mut out, buf, from, to);
    assert(out@ =~= buf@.subrange(from as int, to as int));
    out
}

fn truncated(expected: usize, remaining: usize) -> (r: DecodeError)
    ensures
        r == (DecodeError::Truncated { expected, remaining }),
{
    DecodeError::Truncated { expected, remaining }
}

/// Decodes the device payload that follows the header of `buf`.
fn decode_device_payload(d: u32, buf: &[u8]) -> (r: Result<DevicePacket, DecodeError>)
    requires
        buf.len() >= HEADER_LEN,
    ensures
        ({
            let spec = device_payload_at(d, buf@.subrange(12, buf@.len() as int));
            match r {
                Ok(m) => spec == Ok::<DevicePacketModel, DecodeError>(m@),
                Err(e) => spec == Err::<DevicePacketModel, DecodeError>(e),
            }
        }),
{
    let ghost t = buf@.subrange(12, buf@.len() as int);
    proof {
        lemma_tail_reads(buf@, 12);
    }
    let n = buf.len() - HEADER_LEN;
    let at = HEADER_LEN;
    if d == 0 {
        if n < 8 {
            Err(truncated(8, n))
        } else {
            Ok(DevicePacket::Heartbeat(read_be64(buf, at)))
        }
    } else if d == 1 {
        if n < QUATERNION_LEN {
            Err(truncated(QUATERNION_LEN, n))
        } else {
            Ok(DevicePacket::Rotation(read_quaternion(buf, at)))
        }
    } else if d == 2 {
        Ok(DevicePacket::Gyroscope)
    } else if d == 3 {
        if n < HANDSHAKE_FIXED_LEN {
            Err(truncated(HANDSHAKE_FIXED_LEN, n))
        } else {
            let len = buf[at + 28] as usize;
            assert(t[28] == buf@[at + 28]);
            if n < HANDSHAKE_FIXED_LEN + len {
                Err(truncated(len, n - HANDSHAKE_FIXED_LEN))
            } else {
                let version = copy_range(buf, at + 29, at + 29 + len);
                assert(version@ =~= t.subrange(29, 29 + len));
                Ok(
                    DevicePacket::Handshake {
                        board: read_be32(buf, at),
                        imu: read_be32(buf, at + 4),
                        mcu: read_be32(buf, at + 8),
                        build_number: read_be32(buf, at + 24),
                        version,
                    },
                )
            }
        }
    } else if d == 4 || d == 5 || d == 9 {
        if n < QUATERNION_LEN {
            Err(truncated(QUATERNION_LEN, n))
        } else {
            let v = read_vector(buf, at);
            if d == 4 {
                Ok(DevicePacket::Accelerometer(v))
            } else if d == 5 {
                Ok(DevicePacket::Magnetometer(v))
            } else {
                Ok(DevicePacket::RawMagnetometer(v))
            }
        }
    } else if d == 8 {
        if n < CONFIG_LEN {
            Err(truncated(CONFIG_LEN, n))
        } else {
            proof {
                lemma_config_in_tail(buf@, 12);
            }
            Ok(DevicePacket::Config(read_config(buf, at)))
        }
    } else if d == 10 {
        let data = copy_range(buf, at, buf.len());
        Ok(DevicePacket::PingPong(data))
    } else if d == 14 {
        Ok(DevicePacket::ResetReason)
    } else if d == 15 {
        if n < 2 {
            Err(truncated(2, n))
        } else {
            assert(t[0] == buf@[at as int] && t[1] == buf@[at + 1]);
            Ok(DevicePacket::SensorInfo { sensor_id: buf[at], status: buf[at + 1] })
        }
    } else if d == 17 {
        if n < ROTATION_DATA_LEN {
            Err(truncated(ROTATION_DATA_LEN, n))
        } else {
            assert(t[0] == buf@[at as int] && t[1] == buf@[at + 1] && t[18] == buf@[at + 18]);
            Ok(
                DevicePacket::RotationData(
                    RotationData {
                        sensor_id: buf[at],
                        data_type: buf[at + 1],
                        rotation: read_quaternion(buf, at + 2),
                        accuracy: buf[at + 18],
                    },
                ),
            )
        }
    } else {
        Err(DecodeError::UnknownDiscriminant { direction: Direction::DeviceOrigin, value: d })
    }
}

/// Decodes the server payload that follows the header of `buf`.
fn decode_server_payload(d: u32, buf: &[u8]) -> (r: Result<ServerPacket, DecodeError>)
    requires
        buf.len() >= HEADER_LEN,
    ensures
        ({
            let spec = server_payload_at(d, buf@.subrange(12, buf@.len() as int));
            match r {
                Ok(m) => spec == Ok::<ServerPacketModel, DecodeError>(m@),
                Err(e) => spec == Err::<ServerPacketModel, DecodeError>(e),
            }
        }),
{
    let ghost t = buf@.subrange(12, buf@.len() as int);
    proof {
        lemma_tail_reads(buf@, 12);
    }
    let n = buf.len() - HEADER_LEN;
    let at = HEADER_LEN;
    if d == 1 {
        Ok(ServerPacket::Heartbeat)
    } else if d == 2 {
        Ok(ServerPacket::Vibrate)
    } else if d == 3 {
        Ok(ServerPacket::Handshake)
    } else if d == 4 {
        if n < 1 {
            Err(truncated(1, n))
        } else {
            assert(t[0] == buf@[at as int]);
            let data = copy_range(buf, at + 1, buf.len());
            assert(data@ =~= t.subrange(1, t.len() as int));
            Ok(ServerPacket::Command { cmd: buf[at], data })
        }
    } else if d == 8 {
        if n < CONFIG_LEN {
            Err(truncated(CONFIG_LEN, n))
        } else {
            proof {
                lemma_config_in_tail(buf@, 12);
            }
            Ok(ServerPacket::SetConfig(read_config(buf, at)))
        }
    } else if d == 10 {
        let data = copy_range(buf, at, buf.len());
        Ok(ServerPacket::PingPong(data))
    } else if d == 15 {
        Ok(ServerPacket::SensorInfo)
    } else {
        Err(DecodeError::UnknownDiscriminant { direction: Direction::ServerOrigin, value: d })
    }
}

/// Decodes one device envelope from `buf`.
pub fn decode_device(buf: &[u8]) -> (r: Result<Packet<DevicePacket>, DecodeError>)
    ensures
        match r {
            Ok(q) => device_decoding(buf@) == Ok::<Packet<DevicePacketModel>, DecodeError>(q@),
            Err(e) => device_decoding(buf@) == Err::<Packet<DevicePacketModel>, DecodeError>(e),
        },
{
    if buf.len() < HEADER_LEN {
        return Err(truncated(HEADER_LEN, buf.len()));
    }
    let d = read_be32(buf, 0);
    let packet_number = read_be64(buf, 4);
    match decode_device_payload(d, buf) {
        Ok(inner) => Ok(Packet { packet_number, inner }),
        Err(e) => Err(e),
    }
}

/// Decodes one server envelope from `buf`.
pub fn decode_server(buf: &[u8]) -> (r: Result<Packet<ServerPacket>, DecodeError>)
    ensures
        match r {
            Ok(q) => server_decoding(buf@) == Ok::<Packet<ServerPacketModel>, DecodeError>(q@),
            Err(e) => server_decoding(buf@) == Err::<Packet<ServerPacketModel>, DecodeError>(e),
        },
{
    if buf.len() < HEADER_LEN {
        return Err(truncated(HEADER_LEN, buf.len()));
    }
    let d = read_be32(buf, 0);
    let packet_number = read_be64(buf, 4);
    match decode_server_payload(d, buf) {
        Ok(inner) => Ok(Packet { packet_number, inner }),
        Err(e) => Err(e),
    }
}

} // verus!
