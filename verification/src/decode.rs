//! The single pass over the stream that assembles the decoded activity.

use vstd::prelude::*;
use crate::lap::{decode_lap, lap_of};
use crate::guarantees::{lemma_apply_keeps_well_formed, lemma_laps_follow_lap_messages};
use crate::message::{FieldRecord, Message, MessageType};
use crate::record::{decode_point, point_of};
use crate::session::{device_update, resolve_device, session_update, update_session};
use crate::types::{FitStruct, FitStructView, Point};

verus! {

/// What was decoded so far, after one more message.
///
/// A device-info message can set the device, a lap message adds a lap
/// whose index is the number of laps before it, a record message adds its
/// sample if the sample has a position, a session message updates the
/// summary, and any other message changes nothing.
pub open spec fn apply_message(state: FitStructView, message: Message) -> FitStructView {
    match message.message_type {
        MessageType::DeviceInfo => FitStructView {
            activity: device_update(state.activity, message.fields@),
            ..state
        },
        MessageType::Lap => FitStructView {
            laps: state.laps.push(lap_of(state.laps.len() as usize, message.fields@)),
            ..state
        },
        MessageType::Record => if point_of(message.fields@).has_fix() {
            FitStructView { samples: state.samples.push(point_of(message.fields@)), ..state }
        } else {
            state
        },
        MessageType::Session => FitStructView {
            activity: session_update(state.activity, message.fields@),
            ..state
        },
        MessageType::Other => state,
    }
}

/// What the stream `messages` decodes to: its messages applied in order,
/// from the first to the last, to the blank activity.
pub open spec fn decoded(messages: Seq<Message>) -> FitStructView
    decreases messages.len(),
{
    if messages.len() == 0 {
        FitStructView::blank()
    } else {
        apply_message(decoded(messages.drop_last()), messages.last())
    }
}

/// The lap messages of a stream, in the order of the stream.
pub open spec fn lap_messages(messages: Seq<Message>) -> Seq<Message> {
    messages.filter(|message: Message| message.message_type is Lap)
}

/// The sample that a message gives: that of a record message with a
/// position, and none for any other message.
pub open spec fn sample_of(message: Message) -> Option<Point> {
    if message.message_type is Record && point_of(message.fields@).has_fix() {
        Some(point_of(message.fields@))
    } else {
        None
    }
}

/// The fields of all messages of one kind, in the order of the stream.
pub open spec fn fields_of_kind(messages: Seq<Message>, kind: MessageType) -> Seq<FieldRecord>
    decreases messages.len(),
{
    if messages.len() == 0 {
        Seq::empty()
    } else if messages.last().message_type == kind {
        fields_of_kind(messages.drop_last(), kind) + messages.last().fields@
    } else {
        fields_of_kind(messages.drop_last(), kind)
    }
}

impl FitStruct {
    /// Applies one message to what was decoded so far.
    pub fn apply(&mut self, message: &Message)
        ensures
            final(self)@ == apply_message(old(self)@, *message),
            old(self)@.well_formed() ==> final(self)@.well_formed(),
    {
        let laps_before: usize = self.laps.len();
        proof {
            if self@.well_formed() {
                lemma_apply_keeps_well_formed(self@, *message);
            }
        }
        match message.message_type {
            MessageType::DeviceInfo => {
                resolve_device(&mut self.activity, &message.fields);
            },
            MessageType::Lap => {
                let lap = decode_lap(laps_before, &message.fields);
                self.laps.push(lap);
            },
            MessageType::Record => {
                let point = decode_point(&message.fields);
                if !point.lat.equals_zero() {
                    self.samples.push(point);
                }
            },
            MessageType::Session => {
                update_session(&mut self.activity, &message.fields);
            },
            MessageType::Other => {},
        }
    }
}

/// Decodes a stream of messages in one pass, front to back.
///
/// There is one lap for each lap message, numbered from 0 in the order of
/// the stream, and every sample has a position.
pub fn decode(messages: &Vec<Message>) -> (fit: FitStruct)
    ensures
        fit@ == decoded(messages@),
        fit@.well_formed(),
        fit.laps@.len() == lap_messages(messages@).len(),
{
    let mut fit = FitStruct::new();
    let mut i: usize = 0;
    while i < messages.len()
        invariant
            i <= messages.len(),
            fit@ == decoded(messages@.take(i as int)),
            fit@.well_formed(),
        decreases messages.len() - i,
    {
        proof {
            assert(messages@.take(i + 1).drop_last() == messages@.take(i as int));
            assert(messages@.take(i + 1).last() == messages@[i as int]);
        }
        fit.apply(&messages[i]);
        i += 1;
    }
    proof {
        assert(messages@.take(messages.len() as int) == messages@);
        lemma_laps_follow_lap_messages(messages@);
    }
    fit
}

} // verus!
