//! What holds of every decoded stream.

use vstd::prelude::*;
use crate::decode::{apply_message, decoded, fields_of_kind, lap_messages, sample_of};
use crate::lap::lap_of;
use crate::message::{last_value, FieldRecord, Message, MessageType};
use crate::record::{latitude_of, point_of, RECORD_POSITION_LAT};
use crate::session::{
    device_update, lemma_device_update_concat, lemma_session_update_concat, session_update,
};
use crate::types::{Activity, FitStruct, FitStructView};
use crate::value::{as_f32, RawValue};

verus! {

/// Decoding has no memory: two results of decoding one stream are equal
/// in every attribute, lap and sample.
pub proof fn lemma_decoding_twice_agrees(
    messages: Seq<Message>,
    first: FitStruct,
    second: FitStruct,
)
    requires
        first@ == decoded(messages),
        second@ == decoded(messages),
    ensures
        first.activity == second.activity,
        first.laps@ == second.laps@,
        first.samples@ == second.samples@,
{
}

/// No decoded latitude is 180.0, and a record without a latitude field
/// has the latitude 0.0.
pub proof fn lemma_latitude_is_never_half_turn(fields: Seq<FieldRecord>)
    ensures
        !latitude_of(fields).is_half_turn(),
        last_value(fields, RECORD_POSITION_LAT) is None ==> latitude_of(fields).is_zero(),
{
}

/// A record whose latitude field reads as 180.0 or as 0.0 has no position.
pub proof fn lemma_no_fix_latitudes(fields: Seq<FieldRecord>, value: RawValue)
    requires
        last_value(fields, RECORD_POSITION_LAT) == Some(value),
        as_f32(value).is_half_turn() || as_f32(value).is_zero(),
    ensures
        !point_of(fields).has_fix(),
{
}

/// A record message without a position is dropped: it changes nothing of
/// what was decoded before it.
pub proof fn lemma_record_without_fix_is_dropped(state: FitStructView, message: Message)
    requires
        message.message_type is Record,
        !point_of(message.fields@).has_fix(),
    ensures
        apply_message(state, message) == state,
{
}

/// One more message keeps what was decoded well formed.
pub proof fn lemma_apply_keeps_well_formed(state: FitStructView, message: Message)
    requires
        state.well_formed(),
        state.laps.len() <= usize::MAX,
    ensures
        apply_message(state, message).well_formed(),
{
    lemma_latitude_is_never_half_turn(message.fields@);
}

/// Every sample of a decoded stream has a position: its latitude is
/// neither 0.0 nor 180.0.
pub proof fn lemma_samples_have_fix(messages: Seq<Message>)
    ensures
        forall|i: int|
            0 <= i < decoded(messages).samples.len() ==> (#[trigger] decoded(
                messages,
            ).samples[i]).has_fix(),
        forall|i: int|
            0 <= i < decoded(messages).samples.len() ==> !(#[trigger] decoded(
                messages,
            ).samples[i]).lat.is_half_turn(),
    decreases messages.len(),
{
    if messages.len() > 0 {
        lemma_samples_have_fix(messages.drop_last());
        lemma_latitude_is_never_half_turn(messages.last().fields@);
    }
}

/// The samples of a decoded stream are those that its messages give, one
/// for each record message with a position, in the order of the stream.
pub proof fn lemma_samples_follow_record_messages(messages: Seq<Message>)
    ensures
        decoded(messages).samples == messages.filter_map(|message: Message| sample_of(message)),
    decreases messages.len(),
{
    if messages.len() > 0 {
        lemma_samples_follow_record_messages(messages.drop_last());
        let point = point_of(messages.last().fields@);
        assert(decoded(messages.drop_last()).samples.push(point) == decoded(
            messages.drop_last(),
        ).samples + seq![point]);
    }
}

/// There is one lap for each lap message, in the order of the stream. The
/// lap at position `i` is decoded from the `i`-th lap message and has the
/// index `i`, whatever the fields of the message hold.
pub proof fn lemma_laps_follow_lap_messages(messages: Seq<Message>)
    requires
        messages.len() <= usize::MAX,
    ensures
        decoded(messages).laps.len() == lap_messages(messages).len(),
        decoded(messages).laps.len() <= messages.len(),
        forall|i: int|
            0 <= i < decoded(messages).laps.len() ==> #[trigger] decoded(messages).laps[i]
                == lap_of(i as usize, lap_messages(messages)[i].fields@),
        forall|i: int|
            0 <= i < decoded(messages).laps.len() ==> (#[trigger] decoded(
                messages,
            ).laps[i]).index == i,
    decreases messages.len(),
{
    reveal(Seq::filter);
    if messages.len() > 0 {
        lemma_laps_follow_lap_messages(messages.drop_last());
    }
}

/// The first device that is set stays: once a prefix of the stream has
/// set the device, the whole stream decodes to that device.
pub proof fn lemma_first_device_stays(messages: Seq<Message>, n: int)
    requires
        0 <= n <= messages.len(),
        decoded(messages.take(n)).activity.device is Some,
    ensures
        decoded(messages).activity.device == decoded(messages.take(n)).activity.device,
    decreases messages.len() - n,
{
    if n < messages.len() {
        assert(messages.take(n + 1).drop_last() == messages.take(n));
        lemma_first_device_stays(messages, n + 1);
    } else {
        assert(messages.take(n) == messages);
    }
}

/// Messages of a kind that is not decoded change nothing.
pub proof fn lemma_other_message_is_ignored(state: FitStructView, message: Message)
    requires
        message.message_type is Other,
    ensures
        apply_message(state, message) == state,
{
}

/// The summary of a decoded stream holds, for each attribute, the last
/// write among the fields of all session messages, and for the device the
/// first product field among the fields of all device-info messages. How
/// the fields are spread over messages makes no difference, and no other
/// message has a part in it.
pub proof fn lemma_summary_takes_last_writes(messages: Seq<Message>)
    ensures
        decoded(messages).activity == device_update(
            session_update(Activity::blank(), fields_of_kind(messages, MessageType::Session)),
            fields_of_kind(messages, MessageType::DeviceInfo),
        ),
    decreases messages.len(),
{
    if messages.len() > 0 {
        let rest = messages.drop_last();
        let fields = messages.last().fields@;
        let session_fields = fields_of_kind(rest, MessageType::Session);
        let device_fields = fields_of_kind(rest, MessageType::DeviceInfo);
        lemma_summary_takes_last_writes(rest);
        match messages.last().message_type {
            MessageType::Session => {
                lemma_session_update_concat(Activity::blank(), session_fields, fields);
            },
            MessageType::DeviceInfo => {
                lemma_device_update_concat(
                    session_update(Activity::blank(), session_fields),
                    device_fields,
                    fields,
                );
            },
            _ => {},
        }
    }
}

} // verus!
