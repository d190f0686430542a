use rosc::{OscBundle, OscMessage, OscPacket, OscType};
use rust_survey::msg::InputType;
use rust_survey::osc_device::{Arg, Ingest, Packet, OSC};

fn datagram(addr: &str, args: Option<Vec<OscType>>) -> Vec<u8> {
    rosc::encoder::encode(&OscPacket::Message(OscMessage {
        addr: addr.to_string(),
        args,
    }))
    .unwrap()
}

fn five(phase: i32, material: i32) -> Vec<OscType> {
    vec![
        OscType::Int(phase),
        OscType::Float(812.5),
        OscType::Float(40.25),
        OscType::Float(7.0),
        OscType::Int(material),
    ]
}

#[test]
fn telemetry_becomes_a_sample() {
    let got = OSC::run(&datagram("/material", Some(five(0, 3))));
    assert_eq!(
        got,
        Ingest::Forward((
            InputType::Start,
            812.5f32.to_bits(),
            40.25f32.to_bits(),
            7.0f32.to_bits(),
            3
        ))
    );
    let got = OSC::run(&datagram("/material", Some(five(2, 9))));
    assert!(matches!(got, Ingest::Forward((InputType::End, _, _, _, 9))));
    let got = OSC::run(&datagram("/material", Some(five(7, 1))));
    assert!(matches!(got, Ingest::Forward((InputType::Unknown, _, _, _, 1))));
}

#[test]
fn wrong_topic_enqueues_nothing() {
    assert_eq!(OSC::run(&datagram("/synth", Some(five(0, 3)))), Ingest::Dropped);
    assert_eq!(OSC::run(&datagram("/material/x", Some(five(0, 3)))), Ingest::Dropped);
}

#[test]
fn wrong_arity_enqueues_nothing() {
    let mut four = five(0, 3);
    four.pop();
    assert_eq!(OSC::run(&datagram("/material", Some(four))), Ingest::Dropped);
    let mut six = five(0, 3);
    six.push(OscType::Int(1));
    assert_eq!(OSC::run(&datagram("/material", Some(six))), Ingest::Dropped);
    assert_eq!(OSC::run(&datagram("/material", None)), Ingest::Dropped);
}

#[test]
fn bundle_enqueues_nothing() {
    let bytes = rosc::encoder::encode(&OscPacket::Bundle(OscBundle {
        timetag: OscType::Time(0, 1),
        content: vec![OscPacket::Message(OscMessage {
            addr: "/material".to_string(),
            args: Some(five(0, 3)),
        })],
    }))
    .unwrap();
    assert_eq!(OSC::run(&bytes), Ingest::Dropped);
}

#[test]
fn undecodable_datagram_breaks_the_stream() {
    assert_eq!(OSC::run(&[]), Ingest::Broken);
    assert_eq!(OSC::run(b"nonsense"), Ingest::Broken);
    assert_eq!(OSC::classify(None), Ingest::Broken);
}

#[test]
fn arguments_of_another_type_read_as_zero() {
    let args = vec![
        OscType::Float(1.0),
        OscType::Int(5),
        OscType::String("x".to_string()),
        OscType::Float(2.5),
        OscType::Float(3.0),
    ];
    let got = OSC::run(&datagram("/material", Some(args)));
    assert_eq!(
        got,
        Ingest::Forward((InputType::Start, 0, 0, 2.5f32.to_bits(), 0))
    );
}

#[test]
fn argument_readers() {
    assert_eq!(OSC::toInt(&Arg::Int(12)), 12);
    assert_eq!(OSC::toInt(&Arg::Int(-1)), u32::MAX);
    assert_eq!(OSC::toInt(&Arg::Int(i32::MIN)), 0x8000_0000);
    assert_eq!(OSC::toInt(&Arg::Float(9)), 0);
    assert_eq!(OSC::toFloat(&Arg::Float(1.5f32.to_bits())), 1.5f32.to_bits());
    assert_eq!(OSC::toFloat(&Arg::Int(4)), 0);
    assert_eq!(OSC::match_int(Arg::Int(-4)), -4);
    assert_eq!(OSC::match_int(Arg::Other), 0);
}

#[test]
fn sample_of_a_packet_given_by_hand() {
    let p = Packet::Message {
        addr: "/material".to_string(),
        args: Some(vec![
            Arg::Int(1),
            Arg::Float(10),
            Arg::Float(20),
            Arg::Float(30),
            Arg::Int(-1),
        ]),
    };
    assert_eq!(
        OSC::sample_of(&p),
        Some((InputType::Move, 10, 20, 30, u32::MAX))
    );
    assert_eq!(OSC::sample_of(&Packet::Bundle), None);
    assert_eq!(OSC::classify(Some(Packet::Bundle)), Ingest::Dropped);
}

#[test]
fn telemetry_with_an_argument_of_another_kind_is_forwarded() {
    let mut args = five(0, 3);
    args[2] = OscType::Blob(vec![1, 2, 3]);
    let bytes = datagram("/material", Some(args));
    assert!(OSC::intact(&bytes));
    assert_eq!(
        OSC::run(&bytes),
        Ingest::Forward((InputType::Start, 812.5f32.to_bits(), 0, 7.0f32.to_bits(), 3))
    );
    let mut args = five(2, 3);
    args[1] = OscType::Midi(rosc::OscMidiMessage {
        port: 1,
        status: 2,
        data1: 3,
        data2: 4,
    });
    args[3] = OscType::Color(rosc::OscColor {
        red: 1,
        green: 2,
        blue: 3,
        alpha: 4,
    });
    let bytes = datagram("/material", Some(args));
    assert!(OSC::intact(&bytes));
    assert_eq!(
        OSC::run(&bytes),
        Ingest::Forward((InputType::End, 0, 40.25f32.to_bits(), 0, 3))
    );
}

#[test]
fn message_that_is_no_telemetry_is_dropped() {
    let bytes = datagram(
        "/material",
        Some(vec![OscType::Midi(rosc::OscMidiMessage {
            port: 1,
            status: 2,
            data1: 3,
            data2: 4,
        })]),
    );
    assert!(OSC::intact(&bytes));
    assert_eq!(OSC::run(&bytes), Ingest::Dropped);
    let bytes = datagram("/other", Some(vec![OscType::Blob(vec![9; 17])]));
    assert!(OSC::intact(&bytes));
    assert_eq!(OSC::run(&bytes), Ingest::Dropped);
}

#[test]
fn argument_cut_short_breaks_the_stream() {
    let midi = b"/material\0\0\0,m\0\0\x01\x02";
    assert!(!OSC::intact(midi));
    assert_eq!(OSC::run(midi), Ingest::Broken);
    let colour = b"/a\0\0,ir\0\0\0\0\x07";
    assert!(!OSC::intact(colour));
    assert_eq!(OSC::run(colour), Ingest::Broken);
    let blob = b"/a\0\0,b\0\0\xff\xff\xff\xff";
    assert!(!OSC::intact(blob));
    assert_eq!(OSC::run(blob), Ingest::Broken);
    let blob = b"/a\0\0,b\0\0\0\0\0\x05abcd";
    assert!(!OSC::intact(blob));
    assert_eq!(OSC::run(blob), Ingest::Broken);
    let later = b"/mrb\0\0\0\0,im\0\0\0\0\x01";
    assert!(!OSC::intact(later));
    assert_eq!(OSC::run(later), Ingest::Broken);
    let int = b"/mrb\0\0\0\0,im\0";
    assert!(OSC::intact(int));
    assert_eq!(OSC::run(int), Ingest::Broken);
}

#[test]
fn bundle_that_does_not_decode_breaks_the_stream() {
    assert_eq!(OSC::run(b"#bundle\0"), Ingest::Broken);
    assert_eq!(OSC::run(b"#"), Ingest::Broken);
    assert_eq!(OSC::run(b"#bungle\0\0\0\0\0\0\0\0\x01\0\0\0\0"), Ingest::Broken);
    let mut bytes: Vec<u8> = b"#bundle\0\0\0\0\0\0\0\0\x01".to_vec();
    bytes.extend_from_slice(&[0, 0, 0, 10]);
    bytes.extend_from_slice(b"/a\0\0,m\0\0\x01\x02");
    assert!(!OSC::intact(&bytes));
    assert_eq!(OSC::run(&bytes), Ingest::Broken);
}

#[test]
fn bundle_within_a_bundle_enqueues_nothing() {
    let inner = OscPacket::Bundle(OscBundle {
        timetag: OscType::Time(0, 1),
        content: vec![OscPacket::Message(OscMessage {
            addr: "/material".to_string(),
            args: Some(vec![OscType::Blob(vec![1, 2, 3, 4, 5])]),
        })],
    });
    let bytes = rosc::encoder::encode(&OscPacket::Bundle(OscBundle {
        timetag: OscType::Time(0, 1),
        content: vec![
            inner,
            OscPacket::Message(OscMessage {
                addr: "/material".to_string(),
                args: Some(five(0, 3)),
            }),
        ],
    }))
    .unwrap();
    assert!(OSC::intact(&bytes));
    assert_eq!(OSC::run(&bytes), Ingest::Dropped);
}

#[test]
fn intact_follows_the_arguments() {
    assert!(OSC::intact(b""));
    assert!(OSC::intact(b"mrb"));
    assert!(OSC::intact(b"/mrb"));
    assert!(OSC::intact(b"/mrb\0\0\0\0,if\0"));
    assert!(OSC::intact(b"/abc\0mrb"));
    assert!(OSC::intact(b"/a\0\0,m\0\0\x01\x02\x03\x04"));
    assert!(!OSC::intact(b"/a\0\0,m\0\0\x01\x02\x03"));
    assert!(OSC::intact(b"/a\0\0,sr\0ab\0\0\x01\x02\x03\x04"));
    assert!(!OSC::intact(b"/a\0\0,sr\0abcd\0\0\0\0\x01\x02"));
    assert!(OSC::intact(b"/a\0\0,TNr\0\0\0\0\x01\x02\x03\x04"));
    assert!(OSC::intact(b"/a\0\0,br\0\0\0\0\x02xy\0\0\x01\x02\x03\x04"));
    assert!(!OSC::intact(b"/a\0\0,br\0\0\0\0\x02xy\0\0\x01\x02\x03"));
    assert!(OSC::intact(b"/a\0\0,?m\0"));
    assert!(!OSC::intact(b"/a\0\0mm\0\0"));
    let args = vec![
        OscType::Int(0),
        OscType::Float(f32::from_bits(0x6d72_6262)),
        OscType::Float(1.0),
        OscType::Float(1.0),
        OscType::Int(0x6d6d_6d6d),
    ];
    let bytes = datagram("/material", Some(args));
    assert!(OSC::intact(&bytes));
    assert_eq!(
        OSC::run(&bytes),
        Ingest::Forward((
            InputType::Start,
            0x6d72_6262,
            1.0f32.to_bits(),
            1.0f32.to_bits(),
            0x6d6d_6d6d
        ))
    );
}

#[test]
fn every_prefix_of_a_datagram_is_taken_without_harm() {
    let all = vec![
        OscType::Int(1),
        OscType::Midi(rosc::OscMidiMessage {
            port: 1,
            status: 2,
            data1: 3,
            data2: 4,
        }),
        OscType::String("name".to_string()),
        OscType::Blob(vec![7; 9]),
        OscType::Color(rosc::OscColor {
            red: 1,
            green: 2,
            blue: 3,
            alpha: 4,
        }),
        OscType::Long(5),
        OscType::Double(2.5),
        OscType::Bool(true),
        OscType::Char('x'),
        OscType::Time(3, 4),
        OscType::Nil,
        OscType::Float(1.5),
    ];
    let message = datagram("/material", Some(all.clone()));
    let bundle = rosc::encoder::encode(&OscPacket::Bundle(OscBundle {
        timetag: OscType::Time(0, 1),
        content: vec![
            OscPacket::Message(OscMessage {
                addr: "/a".to_string(),
                args: Some(all.clone()),
            }),
            OscPacket::Bundle(OscBundle {
                timetag: OscType::Time(0, 1),
                content: vec![OscPacket::Message(OscMessage {
                    addr: "/b".to_string(),
                    args: Some(all),
                })],
            }),
        ],
    }))
    .unwrap();
    assert_eq!(OSC::run(&message), Ingest::Dropped);
    assert_eq!(OSC::run(&bundle), Ingest::Dropped);
    for whole in [message, bundle] {
        for cut in 0..whole.len() {
            let got = OSC::run(&whole[..cut]);
            if !OSC::intact(&whole[..cut]) {
                assert_eq!(got, Ingest::Broken);
            }
        }
    }
}

#[test]
fn arbitrary_datagrams_are_taken_without_harm() {
    let starts: [&[u8]; 4] = [
        b"/a\0\0",
        b"/material\0\0\0",
        b"#bundle\0\0\0\0\0\0\0\0\x01",
        b"/a\0\0,",
    ];
    let letters: &[u8] = b",ifsbmrTFNIcdht\0\0\0\0\x01\x04\x08\x10\xff\xc3/#";
    let mut seed: u64 = 0x2545_f491_4f6c_dd1d;
    let mut broken: u32 = 0;
    let mut round: u32 = 0;
    while round < 30000 {
        seed ^= seed << 13;
        seed ^= seed >> 7;
        seed ^= seed << 17;
        let mut bytes: Vec<u8> = starts[(seed % 4) as usize].to_vec();
        let length = ((seed >> 8) % 48) as usize;
        let mut state = seed;
        for _ in 0..length {
            state ^= state << 13;
            state ^= state >> 7;
            state ^= state << 17;
            bytes.push(letters[(state % letters.len() as u64) as usize]);
        }
        let got = OSC::run(&bytes);
        if !OSC::intact(&bytes) {
            assert_eq!(got, Ingest::Broken);
            broken += 1;
        }
        round += 1;
    }
    assert!(broken > 100);
}

#[test]
fn truncated_telemetry_breaks_the_stream() {
    let mut bytes = datagram("/material", Some(five(0, 3)));
    bytes.truncate(bytes.len() - 2);
    assert_eq!(OSC::run(&bytes), Ingest::Broken);
}
