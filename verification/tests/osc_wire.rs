use vibed::osc::frame_packet;

#[test]
fn frame_renders_decimal_bytes_with_terminator() {
    let bytes: Vec<u8> = vec![0, 7, 10, 99, 100, 255];
    let frame = frame_packet(&bytes);
    assert_eq!(String::from_utf8(frame).unwrap(), "0 7 10 99 100 255;");
}

#[test]
fn frame_of_empty_packet_is_bare_terminator() {
    let frame = frame_packet(&Vec::new());
    assert_eq!(String::from_utf8(frame).unwrap(), ";");
}

#[test]
fn frame_of_single_byte() {
    let frame = frame_packet(&vec![42]);
    assert_eq!(String::from_utf8(frame).unwrap(), "42;");
}

#[test]
fn frame_matches_target_format_for_a_real_packet() {
    // The format the target parses: each byte of the OSC packet as its
    // decimal value, single spaces between, ';' at the end.
    let packet = rosc::encoder::encode(&rosc::OscPacket::Message(rosc::OscMessage {
        addr: "/n".to_string(),
        args: vec![rosc::OscType::Float(60.0)],
    }))
    .unwrap();
    let expected = packet
        .iter()
        .map(|b| b.to_string())
        .collect::<Vec<_>>()
        .join(" ")
        + ";";
    let frame = frame_packet(&packet);
    assert_eq!(String::from_utf8(frame).unwrap(), expected);
}

#[test]
fn float_bits_survive_the_osc_encoding() {
    // A float argument rebuilt from its bit pattern encodes to the same
    // packet as the original float: the library's bit-pattern carriage
    // loses nothing.
    let bits = 62.0f32.to_bits();
    let from_bits = rosc::encoder::encode(&rosc::OscPacket::Message(rosc::OscMessage {
        addr: "/n".to_string(),
        args: vec![rosc::OscType::Float(f32::from_bits(bits))],
    }))
    .unwrap();
    let direct = rosc::encoder::encode(&rosc::OscPacket::Message(rosc::OscMessage {
        addr: "/n".to_string(),
        args: vec![rosc::OscType::Float(62.0)],
    }))
    .unwrap();
    assert_eq!(from_bits, direct);
}
