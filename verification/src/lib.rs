//! A bidirectional codec between typed Miosc control events and a generic
//! open sound control (OSC) message shape: an address string paired with an
//! optional, ordered list of typed arguments.
//!
//! Encoding a [`MioscMessage`] always succeeds and yields exactly one
//! [`OscMessage`]; decoding validates the address, the presence and count of
//! the arguments, and the type of every argument, and classifies each failure
//! as [`MioscError::UnknownMessage`] or [`MioscError::InvalidMessage`].
//!
//! Single-precision floating-point payloads (pitch, velocity, time) are
//! carried as their IEEE-754 bit patterns in `u32` fields; the codec never
//! interprets them, it only moves them between the two shapes.

use vstd::prelude::*;

verus! {

/// A typed Miosc control event.
///
/// The `u32` fields hold IEEE-754 single-precision bit patterns.
#[derive(Clone, Debug, PartialEq, Eq, Structural)]
pub enum MioscMessage {
    /// Set the global pitch reference: `Reference(pitch)`.
    Reference(u32),
    /// Start a note: `NoteOn(id, pitch, velocity)`.
    NoteOn(i32, u32, u32),
    /// Stop a note: `NoteOff(id)`.
    NoteOff(i32),
    /// Continuous pitch update for an active note: `Pitch(id, pitch, time)`.
    Pitch(i32, u32, u32),
}

/// How a wire message failed to decode.
#[derive(Clone, Copy, Debug, PartialEq, Eq, Structural)]
pub enum MioscError {
    /// The address matches no Miosc event: not ours to handle.
    UnknownMessage,
    /// The address is recognized but the arguments are missing, of the wrong
    /// count, or of the wrong type.
    InvalidMessage,
}

/// One OSC argument, restricted to the shapes the codec can inspect.
///
/// A `Float` carries the IEEE-754 single-precision bit pattern of the wire
/// value. Every OSC argument type other than a 32-bit integer or a 32-bit
/// float is represented as `Unsupported`; the decoder rejects it wherever it
/// appears.
#[derive(Clone, Copy, Debug, PartialEq, Eq, Structural)]
pub enum OscArg {
    Int(i32),
    Float(u32),
    Unsupported,
}

/// A wire message: an address plus an optional ordered argument list.
///
/// An absent argument list (`None`) is distinct from an empty one
/// (`Some` of an empty vector); the decoder treats absence as invalid for
/// every recognized address.
#[derive(Clone, Debug)]
pub struct OscMessage {
    pub addr: String,
    pub args: Option<Vec<OscArg>>,
}

/// The mathematical value of an [`OscMessage`].
#[verifier::ext_equal]
pub struct OscMessageView {
    pub addr: Seq<char>,
    pub args: Option<Seq<OscArg>>,
}

impl View for OscMessage {
    type V = OscMessageView;

    open spec fn view(&self) -> OscMessageView {
        OscMessageView {
            addr: self.addr@,
            args: match self.args {
                Some(v) => Some(v@),
                None => None,
            },
        }
    }
}

/// The wire message that encodes a given event: the address from the fixed
/// table, and the arguments in field declaration order.
pub open spec fn spec_encode(event: MioscMessage) -> OscMessageView {
    match event {
        MioscMessage::Reference(pitch) => OscMessageView {
            addr: "/m/reference"@,
            args: Some(seq![OscArg::Float(pitch)]),
        },
        MioscMessage::NoteOn(id, pitch, vel) => OscMessageView {
            addr: "/m/note_on"@,
            args: Some(seq![OscArg::Int(id), OscArg::Float(pitch), OscArg::Float(vel)]),
        },
        MioscMessage::NoteOff(id) => OscMessageView {
            addr: "/m/note_off"@,
            args: Some(seq![OscArg::Int(id)]),
        },
        MioscMessage::Pitch(id, pitch, time) => OscMessageView {
            addr: "/m/pitch"@,
            args: Some(seq![OscArg::Int(id), OscArg::Float(pitch), OscArg::Float(time)]),
        },
    }
}

impl OscMessage {
    /// Encode an event as a wire message. Total: every event encodes, and to
    /// exactly the message given by [`spec_encode`].
    pub fn from_miosc(source: MioscMessage) -> (r: OscMessage)
        ensures
            r@ == spec_encode(source),
    {
        match source {
            MioscMessage::Reference(pitch) => {
                let r = OscMessage {
                    addr: "/m/reference".to_owned(),
                    args: Some(vec![OscArg::Float(pitch)]),
                };
                proof {
                    assert(r@ =~= spec_encode(source));
                }
                r
            },
            MioscMessage::NoteOn(id, pitch, vel) => {
                let r = OscMessage {
                    addr: "/m/note_on".to_owned(),
                    args: Some(vec![OscArg::Int(id), OscArg::Float(pitch), OscArg::Float(vel)]),
                };
                proof {
                    assert(r@ =~= spec_encode(source));
                }
                r
            },
            MioscMessage::NoteOff(id) => {
                let r = OscMessage {
                    addr: "/m/note_off".to_owned(),
                    args: Some(vec![OscArg::Int(id)]),
                };
                proof {
                    assert(r@ =~= spec_encode(source));
                }
                r
            },
            MioscMessage::Pitch(id, pitch, time) => {
                let r = OscMessage {
                    addr: "/m/pitch".to_owned(),
                    args: Some(vec![OscArg::Int(id), OscArg::Float(pitch), OscArg::Float(time)]),
                };
                proof {
                    assert(r@ =~= spec_encode(source));
                }
                r
            },
        }
    }
}

/// The event decoded from a `/m/reference` argument list, or the error.
pub open spec fn spec_decode_reference(s: Seq<OscArg>) -> Result<MioscMessage, MioscError> {
    if s.len() == 1 {
        match s[0] {
            OscArg::Float(pitch) => Ok(MioscMessage::Reference(pitch)),
            _ => Err(MioscError::InvalidMessage),
        }
    } else {
        Err(MioscError::InvalidMessage)
    }
}

/// The event decoded from a `/m/note_on` argument list, or the error.
pub open spec fn spec_decode_note_on(s: Seq<OscArg>) -> Result<MioscMessage, MioscError> {
    if s.len() == 3 {
        match (s[0], s[1], s[2]) {
            (OscArg::Int(id), OscArg::Float(pitch), OscArg::Float(vel)) => Ok(
                MioscMessage::NoteOn(id, pitch, vel),
            ),
            _ => Err(MioscError::InvalidMessage),
        }
    } else {
        Err(MioscError::InvalidMessage)
    }
}

/// The event decoded from a `/m/note_off` argument list, or the error.
pub open spec fn spec_decode_note_off(s: Seq<OscArg>) -> Result<MioscMessage, MioscError> {
    if s.len() == 1 {
        match s[0] {
            OscArg::Int(id) => Ok(MioscMessage::NoteOff(id)),
            _ => Err(MioscError::InvalidMessage),
        }
    } else {
        Err(MioscError::InvalidMessage)
    }
}

/// The event decoded from a `/m/pitch` argument list, or the error.
pub open spec fn spec_decode_pitch(s: Seq<OscArg>) -> Result<MioscMessage, MioscError> {
    if s.len() == 3 {
        match (s[0], s[1], s[2]) {
            (OscArg::Int(id), OscArg::Float(pitch), OscArg::Float(time)) => Ok(
                MioscMessage::Pitch(id, pitch, time),
            ),
            _ => Err(MioscError::InvalidMessage),
        }
    } else {
        Err(MioscError::InvalidMessage)
    }
}

/// The result of decoding a wire message: dispatch on the address, demand a
/// present argument list, then check count and types per position.
pub open spec fn spec_decode(msg: OscMessageView) -> Result<MioscMessage, MioscError> {
    if msg.addr == "/m/reference"@ {
        match msg.args {
            Some(s) => spec_decode_reference(s),
            None => Err(MioscError::InvalidMessage),
        }
    } else if msg.addr == "/m/note_on"@ {
        match msg.args {
            Some(s) => spec_decode_note_on(s),
            None => Err(MioscError::InvalidMessage),
        }
    } else if msg.addr == "/m/note_off"@ {
        match msg.args {
            Some(s) => spec_decode_note_off(s),
            None => Err(MioscError::InvalidMessage),
        }
    } else if msg.addr == "/m/pitch"@ {
        match msg.args {
            Some(s) => spec_decode_pitch(s),
            None => Err(MioscError::InvalidMessage),
        }
    } else {
        Err(MioscError::UnknownMessage)
    }
}

/// Take the last argument off the list if it is a float; otherwise report an
/// invalid message. An empty list is left as it is.
fn pop_float(vec: &mut Vec<OscArg>) -> (r: Result<u32, MioscError>)
    ensures
        old(vec)@.len() > 0 && old(vec)@.last() is Float ==> r == Ok::<u32, MioscError>(
            old(vec)@.last()->Float_0,
        ),
        !(old(vec)@.len() > 0 && old(vec)@.last() is Float) ==> r == Err::<u32, MioscError>(
            MioscError::InvalidMessage,
        ),
        final(vec)@ == if old(vec)@.len() == 0 {
            old(vec)@
        } else {
            old(vec)@.drop_last()
        },
{
    match vec.pop() {
        Some(OscArg::Float(f)) => Ok(f),
        _ => Err(MioscError::InvalidMessage),
    }
}

/// Take the last argument off the list if it is an integer; otherwise report
/// an invalid message. An empty list is left as it is.
fn pop_integer(vec: &mut Vec<OscArg>) -> (r: Result<i32, MioscError>)
    ensures
        old(vec)@.len() > 0 && old(vec)@.last() is Int ==> r == Ok::<i32, MioscError>(
            old(vec)@.last()->Int_0,
        ),
        !(old(vec)@.len() > 0 && old(vec)@.last() is Int) ==> r == Err::<i32, MioscError>(
            MioscError::InvalidMessage,
        ),
        final(vec)@ == if old(vec)@.len() == 0 {
            old(vec)@
        } else {
            old(vec)@.drop_last()
        },
{
    match vec.pop() {
        Some(OscArg::Int(i)) => Ok(i),
        _ => Err(MioscError::InvalidMessage),
    }
}

/// Decode a wire message into an event, or classify the failure: an address
/// outside the fixed table is an [`MioscError::UnknownMessage`]; a missing
/// argument list, a wrong argument count, or a wrong argument type under a
/// recognized address is an [`MioscError::InvalidMessage`]. The result is
/// exactly [`spec_decode`] of the message.
pub fn into_miosc(msg: OscMessage) -> (r: Result<MioscMessage, MioscError>)
    ensures
        r == spec_decode(msg@),
{
    let OscMessage { addr, args } = msg;
    if addr == "/m/reference".to_owned() {
        let mut args = match args {
            Some(a) => a,
            None => {
                return Err(MioscError::InvalidMessage);
            },
        };
        if args.len() != 1 {
            return Err(MioscError::InvalidMessage);
        }
        let reference = match pop_float(&mut args) {
            Ok(f) => f,
            Err(e) => {
                return Err(e);
            },
        };
        Ok(MioscMessage::Reference(reference))
    } else if addr == "/m/note_on".to_owned() {
        let mut args = match args {
            Some(a) => a,
            None => {
                return Err(MioscError::InvalidMessage);
            },
        };
        if args.len() != 3 {
            return Err(MioscError::InvalidMessage);
        }
        let vel = match pop_float(&mut args) {
            Ok(f) => f,
            Err(e) => {
                return Err(e);
            },
        };
        let pitch = match pop_float(&mut args) {
            Ok(f) => f,
            Err(e) => {
                return Err(e);
            },
        };
        let id = match pop_integer(&mut args) {
            Ok(i) => i,
            Err(e) => {
                return Err(e);
            },
        };
        Ok(MioscMessage::NoteOn(id, pitch, vel))
    } else if addr == "/m/note_off".to_owned() {
        let mut args = match args {
            Some(a) => a,
            None => {
                return Err(MioscError::InvalidMessage);
            },
        };
        if args.len() != 1 {
            return Err(MioscError::InvalidMessage);
        }
        let id = match pop_integer(&mut args) {
            Ok(i) => i,
            Err(e) => {
                return Err(e);
            },
        };
        Ok(MioscMessage::NoteOff(id))
    } else if addr == "/m/pitch".to_owned() {
        let mut args = match args {
            Some(a) => a,
            None => {
                return Err(MioscError::InvalidMessage);
            },
        };
        if args.len() != 3 {
            return Err(MioscError::InvalidMessage);
        }
        let time = match pop_float(&mut args) {
            Ok(f) => f,
            Err(e) => {
                return Err(e);
            },
        };
        let pitch = match pop_float(&mut args) {
            Ok(f) => f,
            Err(e) => {
                return Err(e);
            },
        };
        let id = match pop_integer(&mut args) {
            Ok(i) => i,
            Err(e) => {
                return Err(e);
            },
        };
        Ok(MioscMessage::Pitch(id, pitch, time))
    } else {
        Err(MioscError::UnknownMessage)
    }
}

/// Round trip: decoding the encoding of any event yields that event back.
///
/// Together with the contracts of [`OscMessage::from_miosc`] and
/// [`into_miosc`], this gives `into_miosc(OscMessage::from_miosc(e)) == Ok(e)`
/// for every event `e`.
pub proof fn lemma_encode_decode(event: MioscMessage)
    ensures
        spec_decode(spec_encode(event)) == Ok::<MioscMessage, MioscError>(event),
{
    reveal_strlit("/m/reference");
    reveal_strlit("/m/note_on");
    reveal_strlit("/m/note_off");
    reveal_strlit("/m/pitch");
    assert("/m/reference"@.len() == 12);
    assert("/m/note_on"@.len() == 10);
    assert("/m/note_off"@.len() == 11);
    assert("/m/pitch"@.len() == 8);
}

/// Encoding is the exact structural inverse of decoding: any wire message
/// that decodes successfully is precisely the encoding of the event it
/// decodes to. In particular no two distinct well-formed wire messages decode
/// to the same event.
pub proof fn lemma_decode_encode(msg: OscMessageView)
    requires
        spec_decode(msg) is Ok,
    ensures
        spec_encode(spec_decode(msg)->Ok_0) == msg,
{
    let event = spec_decode(msg)->Ok_0;
    assert(spec_encode(event) =~= msg);
}

} // verus!
