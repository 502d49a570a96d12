//! The performance-event decoder. The input driver hands over raw
//! status/data byte triplets on its own callback thread; this module
//! turns them into renderer commands and into readable log lines, and
//! pushes both onto the producer's channel handles. Nothing here may
//! block or fail loudly: errors go to the feedback channel.

use crate::bus::CommandBus;
use crate::bus::FeedbackLink;
use crate::messages::ControlMessage;
use crate::messages::FeedbackMessage;
use crate::text::append_byte_hex;
use crate::text::byte_hex;
use vstd::prelude::*;
use vstd::string::StringExecFns;

verus! {

/// "0xHH" for one byte.
pub open spec fn hex_token(b: u8) -> Seq<char> {
    seq!['0', 'x'] + byte_hex(b)
}

/// Every byte of the event as "0xHH", separated by single spaces.
pub open spec fn hex_dump(bytes: Seq<u8>) -> Seq<char>
    decreases bytes.len(),
{
    if bytes.len() == 0 {
        Seq::empty()
    } else if bytes.len() == 1 {
        hex_token(bytes[0])
    } else {
        hex_dump(bytes.drop_last()) + seq![' '] + hex_token(bytes.last())
    }
}

/// The human-readable tag appended after the hex dump, chosen by the
/// status byte's range.
pub open spec fn interpretation_tag(bytes: Seq<u8>) -> Seq<char> {
    if bytes.len() == 0 {
        " (Other)"@
    } else if 0x90 <= bytes[0] <= 0x9F {
        " (Note On)"@
    } else if 0x80 <= bytes[0] <= 0x8F {
        " (Note Off)"@
    } else if 0xB0 <= bytes[0] <= 0xBF {
        " (Control Change)"@
    } else if 0xE0 <= bytes[0] <= 0xEF {
        " (Pitch Bend)"@
    } else {
        " (Other)"@
    }
}

/// The full log line for one raw event.
pub open spec fn formatted_midi(bytes: Seq<u8>) -> Seq<char> {
    hex_dump(bytes) + interpretation_tag(bytes)
}

/// Formats any raw performance event as a readable string: the bytes in
/// hex, then a basic interpretation of the status byte.
pub fn format_midi_message(message: &[u8]) -> (r: String)
    ensures
        r@ == formatted_midi(message@),
{
    let mut s = String::new();
    let n = message.len();
    let mut i: usize = 0;
    while i < n
        invariant
            i <= n,
            n == message@.len(),
            s@ == hex_dump(message@.take(i as int)),
        decreases n - i,
    {
        if i > 0 {
            s.append(" ");
            proof {
                reveal_strlit(" ");
            }
        }
        s.append("0x");
        append_byte_hex(&mut s, message[i]);
        proof {
            reveal_strlit("0x");
            let taken = message@.take(i + 1);
            assert(taken.drop_last() =~= message@.take(i as int));
            assert(taken.last() == message@[i as int]);
            if i == 0 {
                assert(s@ =~= hex_dump(taken));
            } else {
                assert(s@ =~= hex_dump(taken));
            }
        }
        i = i + 1;
    }
    proof {
        assert(message@.take(n as int) =~= message@);
    }
    if n == 0 {
        s.append(" (Other)");
    } else {
        let status = message[0];
        if 0x90 <= status && status <= 0x9F {
            s.append(" (Note On)");
        } else if 0x80 <= status && status <= 0x8F {
            s.append(" (Note Off)");
        } else if 0xB0 <= status && status <= 0xBF {
            s.append(" (Control Change)");
        } else if 0xE0 <= status && status <= 0xEF {
            s.append(" (Pitch Bend)");
        } else {
            s.append(" (Other)");
        }
    }
    s
}

/// The command a raw event decodes to: note-on and note-off events with
/// all three bytes present pass through with their raw note and velocity;
/// everything else is ignored. The channel nibble of the status byte is
/// not used for routing.
pub open spec fn decoded_midi(bytes: Seq<u8>) -> Option<ControlMessage> {
    if bytes.len() >= 3 && 0x90 <= bytes[0] <= 0x9F {
        Some(ControlMessage::NoteOn { note: bytes[1], velocity: bytes[2] })
    } else if bytes.len() >= 3 && 0x80 <= bytes[0] <= 0x8F {
        Some(ControlMessage::NoteOff { note: bytes[1] })
    } else {
        None
    }
}

/// Decodes one raw performance event into a renderer command.
pub fn decode_midi_message(message: &[u8]) -> (r: Option<ControlMessage>)
    ensures
        r == decoded_midi(message@),
{
    if message.len() >= 3 {
        let status = message[0];
        if 0x90 <= status && status <= 0x9F {
            return Some(ControlMessage::NoteOn { note: message[1], velocity: message[2] });
        }
        if 0x80 <= status && status <= 0x8F {
            return Some(ControlMessage::NoteOff { note: message[1] });
        }
    }
    None
}

/// What may appear on the feedback channel while one raw event is
/// handled: its formatted log line, or the note at which a delivery
/// failure was reported.
pub open spec fn midi_feedback_about(fm: FeedbackMessage, bytes: Seq<u8>) -> bool {
    match fm {
        FeedbackMessage::Log { text } => text@ == formatted_midi(bytes),
        FeedbackMessage::Error { text } => text@ == "note event lost: renderer disconnected"@,
    }
}

/// Handles one raw performance event, as the input driver's callback
/// does: the formatted event goes to the console's log, a decoded note
/// command goes to the renderer, and a failed delivery is reported on the
/// feedback channel instead of unwinding.
pub fn handle_midi_event(message: &[u8], bus: &mut CommandBus, feedback: &mut FeedbackLink)
    ensures
        (match decoded_midi(message@) {
            Some(m) => final(bus).sent() == old(bus).sent().push(m) || final(bus).sent() == old(
                bus,
            ).sent(),
            None => final(bus).sent() == old(bus).sent(),
        }),
        old(feedback).sent().is_prefix_of(final(feedback).sent()),
        final(feedback).sent().len() <= old(feedback).sent().len() + 2,
        forall|i: int|
            old(feedback).sent().len() <= i < final(feedback).sent().len()
                ==> midi_feedback_about(#[trigger] final(feedback).sent()[i], message@),
{
    let text = format_midi_message(message);
    feedback.post(FeedbackMessage::Log { text });
    match decode_midi_message(message) {
        Some(command) => {
            match bus.send(command) {
                Ok(()) => {},
                Err(()) => {
                    let note = String::from_str("note event lost: renderer disconnected");
                    feedback.post(FeedbackMessage::Error { text: note });
                },
            }
        },
        None => {},
    }
}

} // verus!
