//! What the messages of the device are for: every attribute that a message is
//! about is reported, once, and no other.

use vstd::prelude::*;

use crate::cluster::{AttrId, AttributeId, ClusterId, EndptId};
use crate::handler::ThermostatHandler;
use crate::hooks::{AttrChangeNotifier, AttrChanges, AttrPath, ThermostatHooks};
use crate::journal::Event;
use crate::laws;
use crate::pending;
use crate::pending::{OutOfBandMessage, PendingAttributes};

verus! {

/// Whether a message is about an attribute.
pub open spec fn is_about(message: OutOfBandMessage, attribute: AttributeId) -> bool {
    match attribute {
        AttributeId::LocalTemperature => message == OutOfBandMessage::LocalTemperature || message
            == OutOfBandMessage::Update,
        AttributeId::OccupiedHeatingSetpoint => message == OutOfBandMessage::OccupiedHeatingSetpoint
            || message == OutOfBandMessage::Update,
        AttributeId::SystemMode => message == OutOfBandMessage::SystemMode || message
            == OutOfBandMessage::Update,
        AttributeId::MinHeatSetpointLimit => message == OutOfBandMessage::SetpointLimits || message
            == OutOfBandMessage::Update,
        AttributeId::MaxHeatSetpointLimit => message == OutOfBandMessage::SetpointLimits || message
            == OutOfBandMessage::Update,
        _ => false,
    }
}

/// The worth of the bit that stands for an attribute in a mask, if one does.
pub open spec fn bit_of(attribute: AttributeId) -> Option<u8> {
    match attribute {
        AttributeId::LocalTemperature => Some(1),
        AttributeId::OccupiedHeatingSetpoint => Some(2),
        AttributeId::SystemMode => Some(4),
        AttributeId::MinHeatSetpointLimit => Some(8),
        AttributeId::MaxHeatSetpointLimit => Some(16),
        _ => None,
    }
}

/// Whether the bit of the attribute is set in a mask.
pub open spec fn is_set(mask: u8, attribute: AttributeId) -> bool {
    bit_of(attribute) matches Some(bit) && (mask / bit) % 2 == 1
}

/// A mask marks the attributes whose bits are set.
proof fn lemma_marked(mask: u8, attribute: AttributeId)
    ensures
        pending::marked(mask).contains(attribute) <==> is_set(mask, attribute),
{
    assert((mask & 0x01 != 0) == ((mask / 1) % 2 == 1)) by (bit_vector);
    assert((mask & 0x02 != 0) == ((mask / 2) % 2 == 1)) by (bit_vector);
    assert((mask & 0x04 != 0) == ((mask / 4) % 2 == 1)) by (bit_vector);
    assert((mask & 0x08 != 0) == ((mask / 8) % 2 == 1)) by (bit_vector);
    assert((mask & 0x10 != 0) == ((mask / 16) % 2 == 1)) by (bit_vector);
    assert(mask & 0x00 == 0) by (bit_vector);
}

/// The mask of a message has the bits of the attributes that the message is about,
/// and no other bits.
pub proof fn law_the_mask_of_a_message(
    message: &OutOfBandMessage,
    mask: u8,
    attribute: AttributeId,
)
    requires
        call_ensures(OutOfBandMessage::pending, (message,), mask),
    ensures
        mask < 32,
        is_set(mask, attribute) <==> is_about(*message, attribute),
{
    lemma_marked(mask, attribute);
    lemma_about(*message, attribute);
}

/// The attributes of a message.
proof fn lemma_about(message: OutOfBandMessage, attribute: AttributeId)
    ensures
        message.attributes().contains(attribute) <==> is_about(message, attribute),
{
    let order = pending::pending_order();
    assert(order[0] is LocalTemperature && order[1] is OccupiedHeatingSetpoint
        && order[2] is MinHeatSetpointLimit && order[3] is MaxHeatSetpointLimit
        && order[4] is SystemMode);
}

/// At first nothing is pending.
pub proof fn law_nothing_is_pending_at_first(fresh: PendingAttributes, attribute: AttributeId)
    requires
        call_ensures(PendingAttributes::new, (), fresh),
    ensures
        !fresh@.contains(attribute),
{
}

/// A message adds what it is about to what is pending, whatever that is.
pub proof fn law_a_message_is_added(
    attributes: &mut PendingAttributes,
    message: OutOfBandMessage,
    attribute: AttributeId,
)
    requires
        call_ensures(PendingAttributes::add, (attributes, message), ()),
    ensures
        final(attributes)@.contains(attribute) <==> old(attributes)@.contains(attribute)
            || is_about(message, attribute),
{
    lemma_about(message, attribute);
}

/// Taking gives everything that was pending, as a mask, and leaves nothing; it gives
/// nothing only if nothing was pending.
pub proof fn law_everything_is_taken(
    attributes: &mut PendingAttributes,
    taken: Option<u8>,
    attribute: AttributeId,
)
    requires
        call_ensures(PendingAttributes::take, (attributes,), taken),
    ensures
        !final(attributes)@.contains(attribute),
        match taken {
            Some(mask) => {
                &&& 0 < mask < 32
                &&& is_set(mask, attribute) <==> old(attributes)@.contains(attribute)
            },
            None => !old(attributes)@.contains(attribute),
        },
{
    if let Some(mask) = taken {
        lemma_marked(mask, attribute);
        if mask == 0 {
            assert forall|any: AttributeId| !old(attributes)@.contains(any) by {
                lemma_marked(0, any);
            }
            assert(old(attributes)@ =~= Set::<AttributeId>::empty());
        }
    }
}

/// The handler passes messages on to what is pending, and touches nothing else.
pub proof fn law_the_handler_keeps_messages<H: ThermostatHooks>(
    handler: &mut ThermostatHandler<H>,
    message: OutOfBandMessage,
    attribute: AttributeId,
)
    requires
        call_ensures(ThermostatHandler::<H>::out_of_band_message, (handler, message), ()),
    ensures
        final(handler).pending@.contains(attribute) <==> old(handler).pending@.contains(attribute)
            || is_about(message, attribute),
        final(handler).dataver == old(handler).dataver,
        final(handler).endpoint_id == old(handler).endpoint_id,
        final(handler).hooks == old(handler).hooks,
        final(handler).journal == old(handler).journal,
{
    lemma_about(message, attribute);
}

/// The handler hands out everything that is pending, once.
pub proof fn law_the_handler_hands_out_what_is_pending<H: ThermostatHooks>(
    handler: &mut ThermostatHandler<H>,
    taken: Option<u8>,
    attribute: AttributeId,
)
    requires
        call_ensures(ThermostatHandler::<H>::take_pending, (handler,), taken),
    ensures
        !final(handler).pending@.contains(attribute),
        match taken {
            Some(mask) => {
                &&& 0 < mask < 32
                &&& is_set(mask, attribute) <==> old(handler).pending@.contains(attribute)
            },
            None => !old(handler).pending@.contains(attribute),
        },
        final(handler).dataver == old(handler).dataver,
        final(handler).endpoint_id == old(handler).endpoint_id,
        final(handler).hooks == old(handler).hooks,
        final(handler).journal == old(handler).journal,
{
    if let Some(mask) = taken {
        lemma_marked(mask, attribute);
        if mask == 0 {
            assert forall|any: AttributeId| !old(handler).pending@.contains(any) by {
                lemma_marked(0, any);
            }
            assert(old(handler).pending@ =~= Set::<AttributeId>::empty());
        }
    }
}

/// The attributes of a set that can be pending, in ascending order of their numbers
/// and each once.
proof fn lemma_in_order(attributes: Set<AttributeId>)
    ensures
        ({
            let listed = pending::in_order(attributes);
            &&& forall|attribute: AttributeId| #[trigger]
                listed.contains(attribute) <==> attributes.contains(attribute) && bit_of(attribute)
                    is Some
            &&& forall|i: int, j: int|
                0 <= i < j < listed.len() ==> (#[trigger] listed[i]).number() < (
                #[trigger] listed[j]).number()
        }),
{
    broadcast use vstd::seq_lib::group_filter_ensures;

    let order = pending::pending_order();
    let kept = |attribute: AttributeId| attributes.contains(attribute);
    let listed = pending::in_order(attributes);
    laws::lemma_filter_keeps_ascending(order, kept);
    assert(order[0] is LocalTemperature && order[1] is OccupiedHeatingSetpoint
        && order[2] is MinHeatSetpointLimit && order[3] is MaxHeatSetpointLimit
        && order[4] is SystemMode);
    assert forall|attribute: AttributeId| #[trigger]
        listed.contains(attribute) <==> attributes.contains(attribute) && bit_of(attribute)
            is Some by {
        if listed.contains(attribute) {
            let k = choose|k: int| 0 <= k < listed.len() && listed[k] == attribute;
            assert(kept(listed[k]));
            assert(order.contains(listed[k]));
        }
        if attributes.contains(attribute) && bit_of(attribute) is Some {
            assert(order.contains(attribute));
            let k = choose|k: int| 0 <= k < order.len() && order[k] == attribute;
            assert(kept(order[k]));
            assert(listed.contains(order[k]));
        }
    }
}

/// Of any mask exactly the attributes are reported whose bits are set: each once, in
/// ascending order, at its place, and nothing else happens.
pub proof fn law_a_mask_is_reported<H: ThermostatHooks, N: AttrChangeNotifier>(
    handler: &mut ThermostatHandler<H>,
    notifier: &mut N,
    mask: u8,
    attribute: AttributeId,
    id: AttrId,
)
    requires
        call_ensures(
            ThermostatHandler::<H>::notify_pending::<N>,
            (handler, notifier, mask),
            (),
        ),
        call_ensures(AttributeId::id, (attribute,), id),
    ensures
        ({
            let known = old(notifier).reported().len() as int;
            let reports = final(notifier).reported().skip(known);
            &&& known <= final(notifier).reported().len()
            &&& final(notifier).reported().take(known) == old(notifier).reported()
            &&& is_set(mask, attribute) <==> exists|i: int|
                0 <= i < reports.len() && (#[trigger] reports[i]).attr_id == id
            &&& forall|i: int|
                0 <= i < reports.len() ==> (#[trigger] reports[i]).endpoint_id == old(
                    handler,
                ).endpoint_id && reports[i].cluster_id == H::metadata().id
            &&& forall|i: int, j: int|
                0 <= i < j < reports.len() ==> (#[trigger] reports[i]).attr_id < (
                #[trigger] reports[j]).attr_id
            &&& final(handler).journal@ =~= old(handler).journal@ + Seq::new(
                reports.len(),
                |i: int| Event::Reported(reports[i]),
            )
        }),
        final(handler).dataver == old(handler).dataver,
        final(handler).endpoint_id == old(handler).endpoint_id,
        final(handler).hooks == old(handler).hooks,
        final(handler).pending == old(handler).pending,
{
    let known = old(notifier).reported().len() as int;
    let listed = pending::in_order(pending::marked(mask));
    let reports = final(notifier).reported().skip(known);
    lemma_in_order(pending::marked(mask));
    lemma_marked(mask, attribute);
    assert(reports.len() == listed.len());
    assert(final(notifier).reported().take(known) =~= old(notifier).reported());
    assert forall|i: int| 0 <= i < reports.len() implies (#[trigger] reports[i]).attr_id
        == listed[i].number() by {}
    if is_set(mask, attribute) {
        assert(listed.contains(attribute));
        let i = choose|i: int| 0 <= i < listed.len() && listed[i] == attribute;
        assert(reports[i].attr_id == id);
    }
    if exists|i: int| 0 <= i < reports.len() && (#[trigger] reports[i]).attr_id == id {
        let i = choose|i: int| 0 <= i < reports.len() && (#[trigger] reports[i]).attr_id == id;
        assert(listed[i].number() == attribute.number());
        assert(listed.contains(listed[i]));
    }
    assert forall|i: int, j: int| 0 <= i < j < reports.len() implies (
    #[trigger] reports[i]).attr_id < (#[trigger] reports[j]).attr_id by {
        assert(listed[i].number() < listed[j].number());
    }
}

/// A single report names the attribute at its place, and nothing else happens.
pub proof fn law_an_attribute_is_reported<H: ThermostatHooks, N: AttrChangeNotifier>(
    handler: &mut ThermostatHandler<H>,
    notifier: &mut N,
    attribute: AttributeId,
    id: AttrId,
)
    requires
        call_ensures(ThermostatHandler::<H>::notify::<N>, (handler, notifier, attribute), ()),
        call_ensures(AttributeId::id, (attribute,), id),
    ensures
        ({
            let path = AttrPath {
                endpoint_id: old(handler).endpoint_id,
                cluster_id: H::metadata().id,
                attr_id: id,
            };
            &&& final(notifier).reported() =~= old(notifier).reported().push(path)
            &&& final(handler).journal@ =~= old(handler).journal@.push(Event::Reported(path))
        }),
        final(handler).dataver == old(handler).dataver,
        final(handler).endpoint_id == old(handler).endpoint_id,
        final(handler).hooks == old(handler).hooks,
        final(handler).pending == old(handler).pending,
{
}

/// The recorder keeps every report, in order.
pub proof fn law_the_recorder_keeps_reports(
    fresh: AttrChanges,
    changes: &mut AttrChanges,
    endpoint_id: EndptId,
    cluster_id: ClusterId,
    attr_id: AttrId,
)
    requires
        call_ensures(AttrChanges::new, (), fresh),
        call_ensures(
            <AttrChanges as AttrChangeNotifier>::notify_attr_changed,
            (changes, endpoint_id, cluster_id, attr_id),
            (),
        ),
    ensures
        fresh.paths@.len() == 0,
        final(changes).paths@ == old(changes).paths@.push(
            (AttrPath { endpoint_id, cluster_id, attr_id }),
        ),
{
}

} // verus!
