use miosc::{into_miosc, MioscError, MioscMessage, OscArg, OscMessage};

fn float(v: f32) -> OscArg {
    OscArg::Float(v.to_bits())
}

#[test]
fn round_trip_reference() {
    let event = MioscMessage::Reference(440.0f32.to_bits());
    let wire = OscMessage::from_miosc(event.clone());
    assert_eq!(into_miosc(wire), Ok(event));
}

#[test]
fn round_trip_note_on() {
    let event = MioscMessage::NoteOn(4, 60.0f32.to_bits(), 0.8f32.to_bits());
    let wire = OscMessage::from_miosc(event.clone());
    assert_eq!(into_miosc(wire), Ok(event));
}

#[test]
fn round_trip_note_off() {
    let event = MioscMessage::NoteOff(-3);
    let wire = OscMessage::from_miosc(event.clone());
    assert_eq!(into_miosc(wire), Ok(event));
}

#[test]
fn round_trip_pitch() {
    let event = MioscMessage::Pitch(4, 61.5f32.to_bits(), 0.02f32.to_bits());
    let wire = OscMessage::from_miosc(event.clone());
    assert_eq!(into_miosc(wire), Ok(event));
}

#[test]
fn unknown_address_empty_args() {
    let wire = OscMessage { addr: "/m/unknown".to_owned(), args: Some(vec![]) };
    assert_eq!(into_miosc(wire), Err(MioscError::UnknownMessage));
}

#[test]
fn unknown_address_regardless_of_arguments() {
    let wire = OscMessage {
        addr: "/m/unknown".to_owned(),
        args: Some(vec![OscArg::Int(1), float(2.0)]),
    };
    assert_eq!(into_miosc(wire), Err(MioscError::UnknownMessage));
    let wire = OscMessage { addr: "/m/unknown".to_owned(), args: None };
    assert_eq!(into_miosc(wire), Err(MioscError::UnknownMessage));
}

#[test]
fn wrong_arity_note_on() {
    let wire = OscMessage {
        addr: "/m/note_on".to_owned(),
        args: Some(vec![OscArg::Int(1), float(2.0)]),
    };
    assert_eq!(into_miosc(wire), Err(MioscError::InvalidMessage));
}

#[test]
fn wrong_arity_extra_argument() {
    let wire = OscMessage {
        addr: "/m/note_off".to_owned(),
        args: Some(vec![OscArg::Int(1), OscArg::Int(2)]),
    };
    assert_eq!(into_miosc(wire), Err(MioscError::InvalidMessage));
}

#[test]
fn wrong_arity_empty_list() {
    let wire = OscMessage { addr: "/m/reference".to_owned(), args: Some(vec![]) };
    assert_eq!(into_miosc(wire), Err(MioscError::InvalidMessage));
}

#[test]
fn missing_arguments_reference() {
    let wire = OscMessage { addr: "/m/reference".to_owned(), args: None };
    assert_eq!(into_miosc(wire), Err(MioscError::InvalidMessage));
}

#[test]
fn missing_arguments_note_on() {
    let wire = OscMessage { addr: "/m/note_on".to_owned(), args: None };
    assert_eq!(into_miosc(wire), Err(MioscError::InvalidMessage));
}

#[test]
fn wrong_type_note_off() {
    let wire = OscMessage { addr: "/m/note_off".to_owned(), args: Some(vec![float(1.0)]) };
    assert_eq!(into_miosc(wire), Err(MioscError::InvalidMessage));
}

#[test]
fn wrong_type_reference() {
    let wire = OscMessage { addr: "/m/reference".to_owned(), args: Some(vec![OscArg::Int(440)]) };
    assert_eq!(into_miosc(wire), Err(MioscError::InvalidMessage));
}

#[test]
fn wrong_type_note_on_each_position() {
    let good = [OscArg::Int(4), float(60.0), float(0.8)];
    for bad_at in 0..3 {
        let mut args = good.to_vec();
        args[bad_at] = match args[bad_at] {
            OscArg::Int(_) => float(4.0),
            _ => OscArg::Int(9),
        };
        let wire = OscMessage { addr: "/m/note_on".to_owned(), args: Some(args) };
        assert_eq!(into_miosc(wire), Err(MioscError::InvalidMessage));
    }
}

#[test]
fn wrong_type_pitch_time_position() {
    let wire = OscMessage {
        addr: "/m/pitch".to_owned(),
        args: Some(vec![OscArg::Int(4), float(61.5), OscArg::Int(2)]),
    };
    assert_eq!(into_miosc(wire), Err(MioscError::InvalidMessage));
}

#[test]
fn unsupported_argument_type_is_invalid() {
    let wire = OscMessage {
        addr: "/m/note_off".to_owned(),
        args: Some(vec![OscArg::Unsupported]),
    };
    assert_eq!(into_miosc(wire), Err(MioscError::InvalidMessage));
    let wire = OscMessage {
        addr: "/m/note_on".to_owned(),
        args: Some(vec![OscArg::Int(4), OscArg::Unsupported, float(0.8)]),
    };
    assert_eq!(into_miosc(wire), Err(MioscError::InvalidMessage));
}

#[test]
fn encode_note_on() {
    let wire = OscMessage::from_miosc(MioscMessage::NoteOn(4, 60.0f32.to_bits(), 0.8f32.to_bits()));
    assert_eq!(wire.addr, "/m/note_on");
    assert_eq!(wire.args, Some(vec![OscArg::Int(4), float(60.0), float(0.8)]));
}

#[test]
fn encode_note_off() {
    let wire = OscMessage::from_miosc(MioscMessage::NoteOff(4));
    assert_eq!(wire.addr, "/m/note_off");
    assert_eq!(wire.args, Some(vec![OscArg::Int(4)]));
}

#[test]
fn encode_reference() {
    let wire = OscMessage::from_miosc(MioscMessage::Reference(440.0f32.to_bits()));
    assert_eq!(wire.addr, "/m/reference");
    assert_eq!(wire.args, Some(vec![float(440.0)]));
}

#[test]
fn encode_pitch() {
    let wire = OscMessage::from_miosc(MioscMessage::Pitch(4, 61.5f32.to_bits(), 0.02f32.to_bits()));
    assert_eq!(wire.addr, "/m/pitch");
    assert_eq!(wire.args, Some(vec![OscArg::Int(4), float(61.5), float(0.02)]));
}
