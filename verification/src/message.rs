//! The input: a stream of messages, each a type tag and a list of numbered
//! fields, and the two ways of looking a field up in such a list.

use vstd::prelude::*;
use crate::value::RawValue;

verus! {

/// The kinds of message that are decoded; every other kind is `Other`.
#[derive(Clone, Copy, Debug, PartialEq, Eq)]
pub enum MessageType {
    DeviceInfo,
    Lap,
    Record,
    Session,
    Other,
}

/// One field of a message: its number and its value.
#[derive(Clone, Debug, PartialEq, Eq)]
pub struct FieldRecord {
    pub field_number: u8,
    pub value: RawValue,
}

/// One message of the stream.
#[derive(Clone, Debug, PartialEq, Eq)]
pub struct Message {
    pub message_type: MessageType,
    pub fields: Vec<FieldRecord>,
}

impl FieldRecord {
    /// The field with the number `field_number` and the value `value`.
    pub fn new(field_number: u8, value: RawValue) -> (field: FieldRecord)
        ensures
            field.field_number == field_number,
            field.value == value,
    {
        FieldRecord { field_number, value }
    }
}

impl Message {
    /// The message of the kind `message_type` with the fields `fields`.
    pub fn new(message_type: MessageType, fields: Vec<FieldRecord>) -> (message: Message)
        ensures
            message.message_type == message_type,
            message.fields == fields,
    {
        Message { message_type, fields }
    }
}

/// The value of the last field of `fields` that carries `number`, if there
/// is one: where a number occurs more than once, the last write counts.
pub open spec fn last_value(fields: Seq<FieldRecord>, number: u8) -> Option<RawValue>
    decreases fields.len(),
{
    if fields.len() == 0 {
        None
    } else if fields.last().field_number == number {
        Some(fields.last().value)
    } else {
        last_value(fields.drop_last(), number)
    }
}

/// The value of the first field of `fields` that carries `number`, if there
/// is one.
pub open spec fn first_value(fields: Seq<FieldRecord>, number: u8) -> Option<RawValue>
    decreases fields.len(),
{
    if fields.len() == 0 {
        None
    } else {
        match first_value(fields.drop_last(), number) {
            Some(value) => Some(value),
            None => if fields.last().field_number == number {
                Some(fields.last().value)
            } else {
                None
            },
        }
    }
}

/// Reading one more field: the lookup over the first `i + 1` fields is the
/// field at `i` where that one carries the number, else the lookup over the
/// first `i` fields.
pub proof fn lemma_last_value_step(fields: Seq<FieldRecord>, i: int)
    requires
        0 <= i < fields.len(),
    ensures
        forall|number: u8|
            fields[i].field_number == number ==> #[trigger] last_value(
                fields.take(i + 1),
                number,
            ) == Some(fields[i].value),
        forall|number: u8|
            fields[i].field_number != number ==> #[trigger] last_value(
                fields.take(i + 1),
                number,
            ) == last_value(fields.take(i), number),
{
    assert(fields.take(i + 1).drop_last() == fields.take(i));
    assert(fields.take(i + 1).last() == fields[i]);
}

/// `last_value` finds the field after which the number does not occur again.
pub proof fn lemma_last_value_is_last_write(fields: Seq<FieldRecord>, number: u8, i: int)
    requires
        0 <= i < fields.len(),
        fields[i].field_number == number,
        forall|j: int| i < j < fields.len() ==> fields[j].field_number != number,
    ensures
        last_value(fields, number) == Some(fields[i].value),
    decreases fields.len(),
{
    if i < fields.len() - 1 {
        lemma_last_value_is_last_write(fields.drop_last(), number, i);
    }
}

/// `last_value` finds nothing exactly where no field carries the number.
pub proof fn lemma_last_value_absent(fields: Seq<FieldRecord>, number: u8)
    ensures
        last_value(fields, number) is None <==> forall|j: int|
            0 <= j < fields.len() ==> fields[j].field_number != number,
    decreases fields.len(),
{
    if fields.len() > 0 {
        lemma_last_value_absent(fields.drop_last(), number);
        if fields.last().field_number != number {
            if last_value(fields, number) is None {
                assert forall|j: int| 0 <= j < fields.len() implies fields[j].field_number
                    != number by {
                    if j < fields.len() - 1 {
                        assert(fields.drop_last()[j] == fields[j]);
                    }
                }
            } else {
                let j = choose|j: int|
                    0 <= j < fields.drop_last().len() && fields.drop_last()[j].field_number
                        == number;
                assert(fields[j].field_number == number);
            }
        }
    }
}

/// `first_value` finds the field before which the number does not occur.
pub proof fn lemma_first_value_is_first_write(fields: Seq<FieldRecord>, number: u8, i: int)
    requires
        0 <= i < fields.len(),
        fields[i].field_number == number,
        forall|j: int| 0 <= j < i ==> fields[j].field_number != number,
    ensures
        first_value(fields, number) == Some(fields[i].value),
    decreases fields.len(),
{
    if i < fields.len() - 1 {
        lemma_first_value_is_first_write(fields.drop_last(), number, i);
    } else {
        lemma_first_value_absent(fields.drop_last(), number);
    }
}

/// `first_value` finds nothing exactly where no field carries the number.
pub proof fn lemma_first_value_absent(fields: Seq<FieldRecord>, number: u8)
    ensures
        first_value(fields, number) is None <==> forall|j: int|
            0 <= j < fields.len() ==> fields[j].field_number != number,
    decreases fields.len(),
{
    if fields.len() > 0 {
        lemma_first_value_absent(fields.drop_last(), number);
        if first_value(fields, number) is None {
            assert forall|j: int| 0 <= j < fields.len() implies fields[j].field_number
                != number by {
                if j < fields.len() - 1 {
                    assert(fields.drop_last()[j] == fields[j]);
                }
            }
        } else if first_value(fields.drop_last(), number) is Some {
            let j = choose|j: int|
                0 <= j < fields.drop_last().len() && fields.drop_last()[j].field_number
                    == number;
            assert(fields[j].field_number == number);
        }
    }
}

/// What `first_value` finds in a prefix, it finds in the whole list.
pub proof fn lemma_first_value_prefix(fields: Seq<FieldRecord>, n: int, number: u8)
    requires
        0 <= n <= fields.len(),
        first_value(fields.take(n), number) is Some,
    ensures
        first_value(fields, number) == first_value(fields.take(n), number),
    decreases fields.len() - n,
{
    if n < fields.len() {
        assert(fields.take(n + 1).drop_last() == fields.take(n));
        lemma_first_value_prefix(fields, n + 1, number);
    } else {
        assert(fields.take(n) == fields);
    }
}

/// Looking a number up in two lists, one after the other: the last write
/// of the second list counts, and that of the first where the second
/// holds none.
pub proof fn lemma_last_value_concat(first: Seq<FieldRecord>, second: Seq<FieldRecord>, number: u8)
    ensures
        last_value(second, number) is Some ==> last_value(first + second, number) == last_value(
            second,
            number,
        ),
        last_value(second, number) is None ==> last_value(first + second, number) == last_value(
            first,
            number,
        ),
    decreases second.len(),
{
    if second.len() == 0 {
        assert(first + second == first);
    } else {
        assert((first + second).drop_last() == first + second.drop_last());
        lemma_last_value_concat(first, second.drop_last(), number);
    }
}

/// Looking a number up in two lists, one after the other: the first write
/// of the first list counts, and that of the second where the first holds
/// none.
pub proof fn lemma_first_value_concat(
    first: Seq<FieldRecord>,
    second: Seq<FieldRecord>,
    number: u8,
)
    ensures
        first_value(first, number) is Some ==> first_value(first + second, number)
            == first_value(first, number),
        first_value(first, number) is None ==> first_value(first + second, number)
            == first_value(second, number),
    decreases second.len(),
{
    if second.len() == 0 {
        assert(first + second == first);
    } else {
        assert((first + second).drop_last() == first + second.drop_last());
        lemma_first_value_concat(first, second.drop_last(), number);
    }
}

/// A field that carries another number has no part in the lookup: without
/// it the last write of `number` is the same.
pub proof fn lemma_last_value_without(fields: Seq<FieldRecord>, at: int, number: u8)
    requires
        0 <= at < fields.len(),
        fields[at].field_number != number,
    ensures
        last_value(fields.remove(at), number) == last_value(fields, number),
    decreases fields.len(),
{
    if at == fields.len() - 1 {
        assert(fields.remove(at) == fields.drop_last());
    } else {
        assert(fields.remove(at).last() == fields.last());
        assert(fields.remove(at).drop_last() == fields.drop_last().remove(at));
        lemma_last_value_without(fields.drop_last(), at, number);
    }
}

/// A field that carries another number has no part in the lookup: without
/// it the first write of `number` is the same.
pub proof fn lemma_first_value_without(fields: Seq<FieldRecord>, at: int, number: u8)
    requires
        0 <= at < fields.len(),
        fields[at].field_number != number,
    ensures
        first_value(fields.remove(at), number) == first_value(fields, number),
    decreases fields.len(),
{
    if at == fields.len() - 1 {
        assert(fields.remove(at) == fields.drop_last());
    } else {
        assert(fields.remove(at).last() == fields.last());
        assert(fields.remove(at).drop_last() == fields.drop_last().remove(at));
        lemma_first_value_without(fields.drop_last(), at, number);
    }
}

} // verus!
