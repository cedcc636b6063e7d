//! The wire format, stated over the packet models.
//!
//! An envelope is a big-endian discriminant, a big-endian packet number and
//! the payload. Payload fields are big-endian, except inside a configuration
//! block, which is little-endian and holds each calibration array back to
//! front (a matrix: last row first, each row back to front).

use vstd::prelude::*;
use crate::array_order::{reversed, reversed_rows};
use crate::bytes::{be32, be32_at, be64, be64_at, le32, le32_at};
use crate::packet::{
    CalibrationModel, DecodeError, DeviceConfigModel, DevicePacketModel, Direction, Packet,
    Quaternion, RotationData, ServerPacketModel, Vector,
};

verus! {

/// Bytes of the discriminant and the packet number.
pub const HEADER_LEN: usize = 12;

/// Bytes of a quaternion or of a vector with its trailing component.
pub const QUATERNION_LEN: usize = 16;

/// Bytes of a configuration block.
pub const CONFIG_LEN: usize = 116;

/// Bytes of a handshake before its version: seven words and the length byte.
pub const HANDSHAKE_FIXED_LEN: usize = 29;

/// Bytes of a rotation reading.
pub const ROTATION_DATA_LEN: usize = 19;

/// The longest version a handshake can carry.
pub const MAX_VERSION_LEN: usize = 255;

pub open spec fn quaternion_bytes(q: Quaternion) -> Seq<u8> {
    be32(q.x) + be32(q.y) + be32(q.z) + be32(q.w)
}

pub open spec fn vector_bytes(v: Vector) -> Seq<u8> {
    be32(v.x) + be32(v.y) + be32(v.z) + be32(0)
}

/// An array of three words, little-endian, in the order given.
pub open spec fn row_bytes(a: Seq<u32>) -> Seq<u8> {
    le32(a[0]) + le32(a[1]) + le32(a[2])
}

pub open spec fn matrix_bytes(m: Seq<Seq<u32>>) -> Seq<u8> {
    let r = reversed_rows(m);
    row_bytes(r[0]) + row_bytes(r[1]) + row_bytes(r[2])
}

pub open spec fn calibration_bytes(c: CalibrationModel) -> Seq<u8> {
    row_bytes(reversed(c.gyro_bias)) + matrix_bytes(c.mag_correction) + row_bytes(
        reversed(c.mag_bias),
    ) + matrix_bytes(c.accel_correction) + row_bytes(reversed(c.accel_bias))
}

#[verifier::opaque]
pub open spec fn config_bytes(c: DeviceConfigModel) -> Seq<u8> {
    calibration_bytes(c.calibration) + le32(c.device_id) + le32(c.device_mode)
}

pub open spec fn device_discriminant(p: DevicePacketModel) -> u32 {
    match p {
        DevicePacketModel::Heartbeat(_) => 0,
        DevicePacketModel::Rotation(_) => 1,
        DevicePacketModel::Gyroscope => 2,
        DevicePacketModel::Handshake { .. } => 3,
        DevicePacketModel::Accelerometer(_) => 4,
        DevicePacketModel::Magnetometer(_) => 5,
        DevicePacketModel::Config(_) => 8,
        DevicePacketModel::RawMagnetometer(_) => 9,
        DevicePacketModel::PingPong(_) => 10,
        DevicePacketModel::ResetReason => 14,
        DevicePacketModel::SensorInfo { .. } => 15,
        DevicePacketModel::RotationData(_) => 17,
    }
}

pub open spec fn server_discriminant(p: ServerPacketModel) -> u32 {
    match p {
        ServerPacketModel::Heartbeat => 1,
        ServerPacketModel::Vibrate => 2,
        ServerPacketModel::Handshake => 3,
        ServerPacketModel::Command { .. } => 4,
        ServerPacketModel::SetConfig(_) => 8,
        ServerPacketModel::PingPong(_) => 10,
        ServerPacketModel::SensorInfo => 15,
    }
}

pub open spec fn device_payload_bytes(p: DevicePacketModel) -> Seq<u8> {
    match p {
        DevicePacketModel::Heartbeat(v) => be64(v),
        DevicePacketModel::Rotation(q) => quaternion_bytes(q),
        DevicePacketModel::Gyroscope => seq![],
        DevicePacketModel::Handshake { board, imu, mcu, build_number, version } => be32(board)
            + be32(imu) + be32(mcu) + be32(0) + be32(0) + be32(0) + be32(build_number) + seq![
            version.len() as u8] + version,
        DevicePacketModel::Accelerometer(v) => vector_bytes(v),
        DevicePacketModel::Magnetometer(v) => vector_bytes(v),
        DevicePacketModel::Config(c) => config_bytes(c),
        DevicePacketModel::RawMagnetometer(v) => vector_bytes(v),
        DevicePacketModel::PingPong(d) => d,
        DevicePacketModel::ResetReason => seq![],
        DevicePacketModel::SensorInfo { sensor_id, status } => seq![sensor_id, status],
        DevicePacketModel::RotationData(r) => seq![r.sensor_id, r.data_type] + quaternion_bytes(
            r.rotation,
        ) + seq![r.accuracy],
    }
}

pub open spec fn server_payload_bytes(p: ServerPacketModel) -> Seq<u8> {
    match p {
        ServerPacketModel::Command { cmd, data } => seq![cmd] + data,
        ServerPacketModel::SetConfig(c) => config_bytes(c),
        ServerPacketModel::PingPong(d) => d,
        _ => seq![],
    }
}

/// A device packet can be encoded: its version fits its length byte.
pub open spec fn device_encodable(p: DevicePacketModel) -> bool {
    match p {
        DevicePacketModel::Handshake { version, .. } => version.len() <= MAX_VERSION_LEN,
        _ => true,
    }
}

pub open spec fn device_packet_bytes(p: Packet<DevicePacketModel>) -> Seq<u8> {
    be32(device_discriminant(p.inner)) + be64(p.packet_number) + device_payload_bytes(p.inner)
}

pub open spec fn server_packet_bytes(p: Packet<ServerPacketModel>) -> Seq<u8> {
    be32(server_discriminant(p.inner)) + be64(p.packet_number) + server_payload_bytes(p.inner)
}

pub open spec fn quaternion_at(s: Seq<u8>, i: int) -> Quaternion {
    Quaternion {
        x: be32_at(s, i),
        y: be32_at(s, i + 4),
        z: be32_at(s, i + 8),
        w: be32_at(s, i + 12),
    }
}

pub open spec fn vector_at(s: Seq<u8>, i: int) -> Vector {
    Vector { x: be32_at(s, i), y: be32_at(s, i + 4), z: be32_at(s, i + 8) }
}

pub open spec fn row_at(s: Seq<u8>, i: int) -> Seq<u32> {
    seq![le32_at(s, i), le32_at(s, i + 4), le32_at(s, i + 8)]
}

pub open spec fn matrix_at(s: Seq<u8>, i: int) -> Seq<Seq<u32>> {
    reversed_rows(seq![row_at(s, i), row_at(s, i + 12), row_at(s, i + 24)])
}

/// The configuration block held by `s[i..i + CONFIG_LEN]`.
#[verifier::opaque]
pub open spec fn config_at(s: Seq<u8>, i: int) -> DeviceConfigModel {
    DeviceConfigModel {
        calibration: CalibrationModel {
            gyro_bias: reversed(row_at(s, i)),
            mag_correction: matrix_at(s, i + 12),
            mag_bias: reversed(row_at(s, i + 48)),
            accel_correction: matrix_at(s, i + 60),
            accel_bias: reversed(row_at(s, i + 96)),
        },
        device_id: le32_at(s, i + 108),
        device_mode: le32_at(s, i + 112),
    }
}

pub open spec fn truncated(expected: int, remaining: int) -> DecodeError {
    DecodeError::Truncated { expected: expected as usize, remaining: remaining as usize }
}

/// The device payload with discriminant `d` at the start of `p`.
pub open spec fn device_payload_at(d: u32, p: Seq<u8>) -> Result<DevicePacketModel, DecodeError> {
    let n = p.len() as int;
    if d == 0 {
        if n < 8 { Err(truncated(8, n)) } else { Ok(DevicePacketModel::Heartbeat(be64_at(p, 0))) }
    } else if d == 1 {
        if n < 16 { Err(truncated(16, n)) } else { Ok(DevicePacketModel::Rotation(quaternion_at(p, 0))) }
    } else if d == 2 {
        Ok(DevicePacketModel::Gyroscope)
    } else if d == 3 {
        if n < 29 {
            Err(truncated(29, n))
        } else if n < 29 + p[28] {
            Err(truncated(p[28] as int, n - 29))
        } else {
            Ok(
                DevicePacketModel::Handshake {
                    board: be32_at(p, 0),
                    imu: be32_at(p, 4),
                    mcu: be32_at(p, 8),
                    build_number: be32_at(p, 24),
                    version: p.subrange(29, 29 + p[28]),
                },
            )
        }
    } else if d == 4 || d == 5 || d == 9 {
        if n < 16 {
            Err(truncated(16, n))
        } else if d == 4 {
            Ok(DevicePacketModel::Accelerometer(vector_at(p, 0)))
        } else if d == 5 {
            Ok(DevicePacketModel::Magnetometer(vector_at(p, 0)))
        } else {
            Ok(DevicePacketModel::RawMagnetometer(vector_at(p, 0)))
        }
    } else if d == 8 {
        if n < 116 { Err(truncated(116, n)) } else { Ok(DevicePacketModel::Config(config_at(p, 0))) }
    } else if d == 10 {
        Ok(DevicePacketModel::PingPong(p))
    } else if d == 14 {
        Ok(DevicePacketModel::ResetReason)
    } else if d == 15 {
        if n < 2 {
            Err(truncated(2, n))
        } else {
            Ok(DevicePacketModel::SensorInfo { sensor_id: p[0], status: p[1] })
        }
    } else if d == 17 {
        if n < 19 {
            Err(truncated(19, n))
        } else {
            Ok(
                DevicePacketModel::RotationData(
                    RotationData {
                        sensor_id: p[0],
                        data_type: p[1],
                        rotation: quaternion_at(p, 2),
                        accuracy: p[18],
                    },
                ),
            )
        }
    } else {
        Err(DecodeError::UnknownDiscriminant { direction: Direction::DeviceOrigin, value: d })
    }
}

/// The server payload with discriminant `d` at the start of `p`.
pub open spec fn server_payload_at(d: u32, p: Seq<u8>) -> Result<ServerPacketModel, DecodeError> {
    let n = p.len() as int;
    if d == 1 {
        Ok(ServerPacketModel::Heartbeat)
    } else if d == 2 {
        Ok(ServerPacketModel::Vibrate)
    } else if d == 3 {
        Ok(ServerPacketModel::Handshake)
    } else if d == 4 {
        if n < 1 {
            Err(truncated(1, n))
        } else {
            Ok(ServerPacketModel::Command { cmd: p[0], data: p.subrange(1, n) })
        }
    } else if d == 8 {
        if n < 116 { Err(truncated(116, n)) } else { Ok(ServerPacketModel::SetConfig(config_at(p, 0))) }
    } else if d == 10 {
        Ok(ServerPacketModel::PingPong(p))
    } else if d == 15 {
        Ok(ServerPacketModel::SensorInfo)
    } else {
        Err(DecodeError::UnknownDiscriminant { direction: Direction::ServerOrigin, value: d })
    }
}

/// What decoding `s` as a device envelope gives.
pub open spec fn device_decoding(s: Seq<u8>) -> Result<Packet<DevicePacketModel>, DecodeError> {
    if s.len() < HEADER_LEN {
        Err(truncated(HEADER_LEN as int, s.len() as int))
    } else {
        match device_payload_at(be32_at(s, 0), s.subrange(12, s.len() as int)) {
            Ok(m) => Ok(Packet { packet_number: be64_at(s, 4), inner: m }),
            Err(e) => Err(e),
        }
    }
}

/// What decoding `s` as a server envelope gives.
pub open spec fn server_decoding(s: Seq<u8>) -> Result<Packet<ServerPacketModel>, DecodeError> {
    if s.len() < HEADER_LEN {
        Err(truncated(HEADER_LEN as int, s.len() as int))
    } else {
        match server_payload_at(be32_at(s, 0), s.subrange(12, s.len() as int)) {
            Ok(m) => Ok(Packet { packet_number: be64_at(s, 4), inner: m }),
            Err(e) => Err(e),
        }
    }
}

} // verus!
