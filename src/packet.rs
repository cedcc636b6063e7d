//! Packet values of both directions of traffic, and their abstract models.
//!
//! Floating-point fields are carried as their IEEE-754 bit patterns
//! (`f32::to_bits`), which is exactly what travels on the wire.

use vstd::prelude::*;
use crate::array_order::matrix_view;

verus! {

/// A rotation: four `f32` bit patterns.
#[derive(Clone, Copy, Debug, PartialEq, Eq, Structural)]
pub struct Quaternion {
    pub x: u32,
    pub y: u32,
    pub z: u32,
    pub w: u32,
}

/// A three-axis sample: three `f32` bit patterns. A fourth, always-zero
/// component follows on the wire and is not kept.
#[derive(Clone, Copy, Debug, PartialEq, Eq, Structural)]
pub struct Vector {
    pub x: u32,
    pub y: u32,
    pub z: u32,
}

/// An orientation reading of one sensor.
#[derive(Clone, Copy, Debug, PartialEq, Eq, Structural)]
pub struct RotationData {
    pub sensor_id: u8,
    pub data_type: u8,
    pub rotation: Quaternion,
    pub accuracy: u8,
}

/// Bias and correction values, as `f32` bit patterns, in logical order.
#[derive(Clone, Copy, Debug, PartialEq, Eq)]
pub struct CalibrationConfig {
    pub gyro_bias: [u32; 3],
    pub mag_correction: [[u32; 3]; 3],
    pub mag_bias: [u32; 3],
    pub accel_correction: [[u32; 3]; 3],
    pub accel_bias: [u32; 3],
}

/// The configuration block: calibration plus device identity and mode.
#[derive(Clone, Copy, Debug, PartialEq, Eq)]
pub struct DeviceConfig {
    pub calibration: CalibrationConfig,
    pub device_id: u32,
    pub device_mode: u32,
}

/// What a tracker device sends.
#[derive(Clone, Debug, PartialEq, Eq)]
pub enum DevicePacket {
    Heartbeat(u64),
    Rotation(Quaternion),
    Gyroscope,
    Handshake { board: u32, imu: u32, mcu: u32, build_number: u32, version: Vec<u8> },
    Accelerometer(Vector),
    Magnetometer(Vector),
    Config(DeviceConfig),
    RawMagnetometer(Vector),
    PingPong(Vec<u8>),
    ResetReason,
    SensorInfo { sensor_id: u8, status: u8 },
    RotationData(RotationData),
}

/// What a server sends.
#[derive(Clone, Debug, PartialEq, Eq)]
pub enum ServerPacket {
    Heartbeat,
    Vibrate,
    Handshake,
    Command { cmd: u8, data: Vec<u8> },
    SetConfig(DeviceConfig),
    PingPong(Vec<u8>),
    SensorInfo,
}

/// The envelope around every payload.
#[derive(Clone, Debug, PartialEq, Eq)]
pub struct Packet<T> {
    pub packet_number: u64,
    pub inner: T,
}

/// Which side sent a packet.
#[derive(Clone, Copy, Debug, PartialEq, Eq, Structural)]
pub enum Direction {
    DeviceOrigin,
    ServerOrigin,
}

/// Why a buffer does not decode.
#[derive(Clone, Copy, Debug, PartialEq, Eq, Structural)]
pub enum DecodeError {
    /// No variant of the direction's taxonomy has this discriminant.
    UnknownDiscriminant { direction: Direction, value: u32 },
    /// The buffer ends before a field does. `expected` is the length of the
    /// part that ran short and `remaining` the bytes left where it starts:
    /// the header counts from the start of the buffer, a variant's fixed
    /// fields from the start of its payload, and a length-prefixed field
    /// (a handshake's version) from just after its length byte, with the
    /// length that byte declares.
    Truncated { expected: usize, remaining: usize },
}

/// The fields whose length travels in a prefix.
#[derive(Clone, Copy, Debug, PartialEq, Eq, Structural)]
pub enum PrefixedField {
    HandshakeVersion,
}

/// Why a packet does not encode.
#[derive(Clone, Copy, Debug, PartialEq, Eq, Structural)]
pub enum EncodeError {
    /// The field is longer than its length prefix can state.
    LengthPrefixOverflow { field: PrefixedField, actual: usize, max: usize },
}

/// Calibration values as sequences: arrays of three, matrices of three rows.
pub struct CalibrationModel {
    pub gyro_bias: Seq<u32>,
    pub mag_correction: Seq<Seq<u32>>,
    pub mag_bias: Seq<u32>,
    pub accel_correction: Seq<Seq<u32>>,
    pub accel_bias: Seq<u32>,
}

pub struct DeviceConfigModel {
    pub calibration: CalibrationModel,
    pub device_id: u32,
    pub device_mode: u32,
}

pub enum DevicePacketModel {
    Heartbeat(u64),
    Rotation(Quaternion),
    Gyroscope,
    Handshake { board: u32, imu: u32, mcu: u32, build_number: u32, version: Seq<u8> },
    Accelerometer(Vector),
    Magnetometer(Vector),
    Config(DeviceConfigModel),
    RawMagnetometer(Vector),
    PingPong(Seq<u8>),
    ResetReason,
    SensorInfo { sensor_id: u8, status: u8 },
    RotationData(RotationData),
}

pub enum ServerPacketModel {
    Heartbeat,
    Vibrate,
    Handshake,
    Command { cmd: u8, data: Seq<u8> },
    SetConfig(DeviceConfigModel),
    PingPong(Seq<u8>),
    SensorInfo,
}

impl View for CalibrationConfig {
    type V = CalibrationModel;

    open spec fn view(&self) -> CalibrationModel {
        CalibrationModel {
            gyro_bias: self.gyro_bias@,
            mag_correction: matrix_view(self.mag_correction),
            mag_bias: self.mag_bias@,
            accel_correction: matrix_view(self.accel_correction),
            accel_bias: self.accel_bias@,
        }
    }
}

impl View for DeviceConfig {
    type V = DeviceConfigModel;

    open spec fn view(&self) -> DeviceConfigModel {
        DeviceConfigModel {
            calibration: self.calibration@,
            device_id: self.device_id,
            device_mode: self.device_mode,
        }
    }
}

impl View for DevicePacket {
    type V = DevicePacketModel;

    open spec fn view(&self) -> DevicePacketModel {
        match self {
            DevicePacket::Heartbeat(v) => DevicePacketModel::Heartbeat(*v),
            DevicePacket::Rotation(q) => DevicePacketModel::Rotation(*q),
            DevicePacket::Gyroscope => DevicePacketModel::Gyroscope,
            DevicePacket::Handshake { board, imu, mcu, build_number, version } =>
                DevicePacketModel::Handshake {
                    board: *board,
                    imu: *imu,
                    mcu: *mcu,
                    build_number: *build_number,
                    version: version@,
                },
            DevicePacket::Accelerometer(v) => DevicePacketModel::Accelerometer(*v),
            DevicePacket::Magnetometer(v) => DevicePacketModel::Magnetometer(*v),
            DevicePacket::Config(c) => DevicePacketModel::Config(c@),
            DevicePacket::RawMagnetometer(v) => DevicePacketModel::RawMagnetometer(*v),
            DevicePacket::PingPong(d) => DevicePacketModel::PingPong(d@),
            DevicePacket::ResetReason => DevicePacketModel::ResetReason,
            DevicePacket::SensorInfo { sensor_id, status } =>
                DevicePacketModel::SensorInfo { sensor_id: *sensor_id, status: *status },
            DevicePacket::RotationData(r) => DevicePacketModel::RotationData(*r),
        }
    }
}

impl View for ServerPacket {
    type V = ServerPacketModel;

    open spec fn view(&self) -> ServerPacketModel {
        match self {
            ServerPacket::Heartbeat => ServerPacketModel::Heartbeat,
            ServerPacket::Vibrate => ServerPacketModel::Vibrate,
            ServerPacket::Handshake => ServerPacketModel::Handshake,
            ServerPacket::Command { cmd, data } => ServerPacketModel::Command {
                cmd: *cmd,
                data: data@,
            },
            ServerPacket::SetConfig(c) => ServerPacketModel::SetConfig(c@),
            ServerPacket::PingPong(d) => ServerPacketModel::PingPong(d@),
            ServerPacket::SensorInfo => ServerPacketModel::SensorInfo,
        }
    }
}

impl<T: View> View for Packet<T> {
    type V = Packet<T::V>;

    open spec fn view(&self) -> Packet<T::V> {
        Packet { packet_number: self.packet_number, inner: self.inner@ }
    }
}

} // verus!
