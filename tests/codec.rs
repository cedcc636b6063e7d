use tracker_wire::array_order::{reverse, reverse_nested};
use tracker_wire::codec::{decode_device, decode_server, encode_device, encode_server};
use tracker_wire::packet::{
    CalibrationConfig, DecodeError, DeviceConfig, DevicePacket, Direction, EncodeError, Packet,
    PrefixedField, Quaternion, RotationData, ServerPacket, Vector,
};

fn quat(x: f32, y: f32, z: f32, w: f32) -> Quaternion {
    Quaternion { x: x.to_bits(), y: y.to_bits(), z: z.to_bits(), w: w.to_bits() }
}

fn vector(x: f32, y: f32, z: f32) -> Vector {
    Vector { x: x.to_bits(), y: y.to_bits(), z: z.to_bits() }
}

fn sample_config() -> DeviceConfig {
    let mut next: u32 = 1;
    let mut word = || {
        next += 1;
        (next as f32 * 0.5).to_bits()
    };
    let mut row = || [word(), word(), word()];
    let gyro_bias = row();
    let mag_correction = [row(), row(), row()];
    let mag_bias = row();
    let accel_correction = [row(), row(), row()];
    let accel_bias = row();
    DeviceConfig {
        calibration: CalibrationConfig {
            gyro_bias,
            mag_correction,
            mag_bias,
            accel_correction,
            accel_bias,
        },
        device_id: 0x0102_0304,
        device_mode: 7,
    }
}

fn all_device_packets() -> Vec<DevicePacket> {
    vec![
        DevicePacket::Heartbeat(0x0123_4567_89AB_CDEF),
        DevicePacket::Rotation(quat(0.5, -0.5, 0.25, 1.0)),
        DevicePacket::Gyroscope,
        DevicePacket::Handshake {
            board: 1,
            imu: 2,
            mcu: 3,
            build_number: 9000,
            version: b"0.4.0".to_vec(),
        },
        DevicePacket::Accelerometer(vector(1.0, 2.0, 9.81)),
        DevicePacket::Magnetometer(vector(-1.0, 0.0, 3.5)),
        DevicePacket::Config(sample_config()),
        DevicePacket::RawMagnetometer(vector(0.1, 0.2, 0.3)),
        DevicePacket::PingPong(vec![9, 8, 7]),
        DevicePacket::ResetReason,
        DevicePacket::SensorInfo { sensor_id: 2, status: 1 },
        DevicePacket::RotationData(RotationData {
            sensor_id: 4,
            data_type: 1,
            rotation: quat(0.0, 0.0, 0.0, 1.0),
            accuracy: 3,
        }),
    ]
}

fn all_server_packets() -> Vec<ServerPacket> {
    vec![
        ServerPacket::Heartbeat,
        ServerPacket::Vibrate,
        ServerPacket::Handshake,
        ServerPacket::Command { cmd: 2, data: vec![1, 2, 3, 4] },
        ServerPacket::SetConfig(sample_config()),
        ServerPacket::PingPong(vec![0xAA; 6]),
        ServerPacket::SensorInfo,
    ]
}

fn header(discriminant: u32, number: u64) -> Vec<u8> {
    let mut b = discriminant.to_be_bytes().to_vec();
    b.extend_from_slice(&number.to_be_bytes());
    b
}

#[test]
fn heartbeat_round_trip() {
    let p = Packet { packet_number: 42, inner: DevicePacket::Heartbeat(7) };
    let bytes = encode_device(&p).unwrap();
    assert_eq!(
        bytes,
        vec![0, 0, 0, 0, 0, 0, 0, 0, 0, 0, 0, 0x2A, 0, 0, 0, 0, 0, 0, 0, 7]
    );
    assert_eq!(decode_device(&bytes), Ok(p));
}

#[test]
fn handshake_length_prefix() {
    let p = Packet {
        packet_number: 1,
        inner: DevicePacket::Handshake {
            board: 5,
            imu: 6,
            mcu: 7,
            build_number: 8,
            version: vec![0x31, 0x2E, 0x30],
        },
    };
    let bytes = encode_device(&p).unwrap();
    assert_eq!(bytes.len(), 12 + 29 + 3);
    assert_eq!(&bytes[0..4], &[0, 0, 0, 3]);
    assert_eq!(&bytes[12 + 12..12 + 24], &[0u8; 12]);
    assert_eq!(&bytes[40..], &[0x03, 0x31, 0x2E, 0x30]);
    assert_eq!(decode_device(&bytes), Ok(p));

    let short = &bytes[..bytes.len() - 1];
    assert_eq!(
        decode_device(short),
        Err(DecodeError::Truncated { expected: 3, remaining: 2 })
    );
}

#[test]
fn handshake_version_short_of_its_prefix() {
    let mut buf = header(3, 1);
    buf.extend_from_slice(&[0u8; 28]);
    buf.extend_from_slice(&[0x03, 0x31, 0x2E]);
    assert_eq!(buf.len(), 43);
    assert_eq!(decode_device(&buf), Err(DecodeError::Truncated { expected: 3, remaining: 2 }));
    let mut none = header(3, 1);
    none.extend_from_slice(&[0u8; 28]);
    none.push(5);
    assert_eq!(decode_device(&none), Err(DecodeError::Truncated { expected: 5, remaining: 0 }));
}

#[test]
fn handshake_version_too_long() {
    let p = Packet {
        packet_number: 1,
        inner: DevicePacket::Handshake {
            board: 0,
            imu: 0,
            mcu: 0,
            build_number: 0,
            version: vec![b'x'; 256],
        },
    };
    assert_eq!(
        encode_device(&p),
        Err(EncodeError::LengthPrefixOverflow {
            field: PrefixedField::HandshakeVersion,
            actual: 256,
            max: 255,
        })
    );
    let fits = Packet {
        packet_number: 1,
        inner: DevicePacket::Handshake {
            board: 0,
            imu: 0,
            mcu: 0,
            build_number: 0,
            version: vec![b'x'; 255],
        },
    };
    let bytes = encode_device(&fits).unwrap();
    assert_eq!(bytes[40], 255);
    assert_eq!(decode_device(&bytes), Ok(fits));
}

#[test]
fn ping_pong_remainder_capture() {
    let mut buf = header(10, 99);
    buf.extend_from_slice(&[0xDE, 0xAD, 0xBE, 0xEF, 0x01]);
    let decoded = decode_device(&buf).unwrap();
    assert_eq!(decoded.packet_number, 99);
    assert_eq!(decoded.inner, DevicePacket::PingPong(vec![0xDE, 0xAD, 0xBE, 0xEF, 0x01]));
    assert_eq!(encode_device(&decoded).unwrap(), buf);

    let server = decode_server(&buf).unwrap();
    assert_eq!(server.inner, ServerPacket::PingPong(vec![0xDE, 0xAD, 0xBE, 0xEF, 0x01]));
    assert_eq!(encode_server(&server), buf);
}

#[test]
fn device_round_trip_every_variant() {
    for (i, inner) in all_device_packets().into_iter().enumerate() {
        let p = Packet { packet_number: 1000 + i as u64, inner };
        let bytes = encode_device(&p).unwrap();
        assert_eq!(decode_device(&bytes), Ok(p));
    }
}

#[test]
fn server_round_trip_every_variant() {
    for (i, inner) in all_server_packets().into_iter().enumerate() {
        let p = Packet { packet_number: u64::MAX - i as u64, inner };
        let bytes = encode_server(&p);
        assert_eq!(decode_server(&bytes), Ok(p));
    }
}

#[test]
fn discriminants_follow_the_tables() {
    let device: Vec<u32> = all_device_packets().iter().map(|p| p.packet_type()).collect();
    assert_eq!(device, vec![0, 1, 2, 3, 4, 5, 8, 9, 10, 14, 15, 17]);
    for inner in all_device_packets() {
        let d = inner.packet_type();
        let bytes = encode_device(&Packet { packet_number: 0, inner }).unwrap();
        assert_eq!(u32::from_be_bytes([bytes[0], bytes[1], bytes[2], bytes[3]]), d);
        assert_eq!(decode_device(&bytes).unwrap().inner.packet_type(), d);
    }
    let server: Vec<u32> = all_server_packets().iter().map(|p| p.packet_type()).collect();
    assert_eq!(server, vec![1, 2, 3, 4, 8, 10, 15]);
    for inner in all_server_packets() {
        let d = inner.packet_type();
        let bytes = encode_server(&Packet { packet_number: 0, inner });
        assert_eq!(u32::from_be_bytes([bytes[0], bytes[1], bytes[2], bytes[3]]), d);
        assert_eq!(decode_server(&bytes).unwrap().inner.packet_type(), d);
    }
}

#[test]
fn reverse_twice_is_identity() {
    let a = [1u32, 2, 3];
    assert_eq!(reverse(a), [3, 2, 1]);
    assert_eq!(reverse(reverse(a)), a);
    let four = [1u8, 2, 3, 4];
    assert_eq!(reverse(four), [4, 3, 2, 1]);
    let m = [[1u32, 2, 3], [4, 5, 6], [7, 8, 9]];
    assert_eq!(reverse_nested(m), [[9, 8, 7], [6, 5, 4], [3, 2, 1]]);
    assert_eq!(reverse_nested(reverse_nested(m)), m);
}

#[test]
fn config_block_is_little_endian_and_reversed() {
    let mut config = sample_config();
    config.calibration.gyro_bias = [1, 2, 3];
    config.calibration.mag_correction = [[10, 11, 12], [13, 14, 15], [16, 17, 18]];
    let p = Packet { packet_number: 5, inner: DevicePacket::Config(config) };
    let bytes = encode_device(&p).unwrap();
    assert_eq!(bytes.len(), 12 + 116);
    assert_eq!(&bytes[0..4], &[0, 0, 0, 8]);
    let word = |k: usize| {
        let at = 12 + 4 * k;
        u32::from_le_bytes([bytes[at], bytes[at + 1], bytes[at + 2], bytes[at + 3]])
    };
    assert_eq!([word(0), word(1), word(2)], [3, 2, 1]);
    let mag: Vec<u32> = (3..12).map(word).collect();
    assert_eq!(mag, vec![18, 17, 16, 15, 14, 13, 12, 11, 10]);
    assert_eq!(word(27), 0x0102_0304);
    assert_eq!(&bytes[12 + 108..12 + 112], &[4, 3, 2, 1]);
    assert_eq!(word(28), 7);
    assert_eq!(decode_device(&bytes), Ok(p));
}

#[test]
fn server_config_round_trip() {
    let p = Packet { packet_number: 3, inner: ServerPacket::SetConfig(sample_config()) };
    let bytes = encode_server(&p);
    assert_eq!(&bytes[0..4], &[0, 0, 0, 8]);
    assert_eq!(decode_server(&bytes), Ok(p));
}

#[test]
fn floats_travel_as_big_endian_bits() {
    let p = Packet { packet_number: 0, inner: DevicePacket::Rotation(quat(1.0, -2.0, 0.0, 0.5)) };
    let bytes = encode_device(&p).unwrap();
    assert_eq!(
        &bytes[12..],
        &[0x3F, 0x80, 0, 0, 0xC0, 0, 0, 0, 0, 0, 0, 0, 0x3F, 0, 0, 0]
    );
}

#[test]
fn vector_trailing_component_is_zero_and_dropped() {
    let p = Packet { packet_number: 0, inner: DevicePacket::Accelerometer(vector(1.0, 1.0, 1.0)) };
    let bytes = encode_device(&p).unwrap();
    assert_eq!(bytes.len(), 12 + 16);
    assert_eq!(&bytes[24..28], &[0, 0, 0, 0]);

    let mut wire = bytes.clone();
    wire[24..28].copy_from_slice(&2.0f32.to_be_bytes());
    assert_eq!(decode_device(&wire), Ok(p));
}

#[test]
fn heartbeat_truncated() {
    let mut buf = header(0, 1);
    buf.extend_from_slice(&[1, 2, 3]);
    assert_eq!(decode_device(&buf), Err(DecodeError::Truncated { expected: 8, remaining: 3 }));
}

#[test]
fn header_truncated() {
    assert_eq!(decode_device(&[]), Err(DecodeError::Truncated { expected: 12, remaining: 0 }));
    assert_eq!(
        decode_server(&[0, 0, 0, 1, 0]),
        Err(DecodeError::Truncated { expected: 12, remaining: 5 })
    );
}

#[test]
fn fixed_variants_truncated() {
    let cases: Vec<(u32, usize)> = vec![(1, 16), (3, 29), (4, 16), (5, 16), (8, 116), (9, 16), (15, 2), (17, 19)];
    for (d, need) in cases {
        let mut buf = header(d, 0);
        buf.extend(std::iter::repeat(0u8).take(need - 1));
        assert_eq!(
            decode_device(&buf),
            Err(DecodeError::Truncated { expected: need, remaining: need - 1 })
        );
        buf.push(0);
        assert!(decode_device(&buf).is_ok());
    }
    let mut cmd = header(4, 0);
    assert_eq!(decode_server(&cmd), Err(DecodeError::Truncated { expected: 1, remaining: 0 }));
    cmd.push(3);
    assert_eq!(
        decode_server(&cmd).unwrap().inner,
        ServerPacket::Command { cmd: 3, data: vec![] }
    );
    let mut set = header(8, 0);
    set.extend(std::iter::repeat(0u8).take(115));
    assert_eq!(decode_server(&set), Err(DecodeError::Truncated { expected: 116, remaining: 115 }));
}

#[test]
fn unknown_discriminants_rejected() {
    for d in [6u32, 7, 11, 12, 13, 16, 18, 19, 0xFFFF_FFFF] {
        let mut buf = header(d, 0);
        buf.extend_from_slice(&[0u8; 200]);
        assert_eq!(
            decode_device(&buf),
            Err(DecodeError::UnknownDiscriminant { direction: Direction::DeviceOrigin, value: d })
        );
    }
    for d in [0u32, 5, 6, 7, 9, 11, 14, 16, 17, 1000] {
        let mut buf = header(d, 0);
        buf.extend_from_slice(&[0u8; 200]);
        assert_eq!(
            decode_server(&buf),
            Err(DecodeError::UnknownDiscriminant { direction: Direction::ServerOrigin, value: d })
        );
    }
}

#[test]
fn command_keeps_remaining_bytes() {
    let mut buf = header(4, 17);
    buf.extend_from_slice(&[1, 0xAB, 0xCD]);
    let p = decode_server(&buf).unwrap();
    assert_eq!(p.packet_number, 17);
    assert_eq!(p.inner, ServerPacket::Command { cmd: 1, data: vec![0xAB, 0xCD] });
    assert_eq!(encode_server(&p), buf);
}

#[test]
fn trailing_bytes_after_fixed_payload_are_ignored() {
    let mut buf = header(15, 2);
    buf.extend_from_slice(&[3, 4, 5, 6]);
    assert_eq!(
        decode_device(&buf),
        Ok(Packet { packet_number: 2, inner: DevicePacket::SensorInfo { sensor_id: 3, status: 4 } })
    );
}

#[test]
fn rotation_data_layout() {
    let r = RotationData { sensor_id: 9, data_type: 2, rotation: quat(1.0, 0.0, 0.0, 0.0), accuracy: 1 };
    let bytes = encode_device(&Packet { packet_number: 0, inner: DevicePacket::RotationData(r) }).unwrap();
    assert_eq!(bytes.len(), 12 + 19);
    assert_eq!(&bytes[12..14], &[9, 2]);
    assert_eq!(&bytes[14..18], &[0x3F, 0x80, 0, 0]);
    assert_eq!(bytes[30], 1);
}
