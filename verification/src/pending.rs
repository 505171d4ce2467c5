//! Changes that the device makes behind the cluster's back, and the attributes
//! that have to be reported again because of them.

use vstd::prelude::*;

use crate::cluster::AttributeId;

verus! {

/// Tells the handler that the device changed an attribute by itself: a new
/// sensor reading, a turn of a knob on the device's own front panel.
#[derive(Clone, Copy, Debug, Eq, Hash, PartialEq, Structural)]
pub enum OutOfBandMessage {
    /// The local temperature changed.
    LocalTemperature,
    /// The heating setpoint changed.
    OccupiedHeatingSetpoint,
    /// The system mode changed.
    SystemMode,
    /// The lower or the upper setpoint limit changed.
    SetpointLimits,
    /// Any or all of the above changed.
    Update,
}

pub const PENDING_LOCAL_TEMPERATURE: u8 = 0x01;

pub const PENDING_OCCUPIED_HEATING_SETPOINT: u8 = 0x02;

pub const PENDING_SYSTEM_MODE: u8 = 0x04;

pub const PENDING_MIN_LIMIT: u8 = 0x08;

pub const PENDING_MAX_LIMIT: u8 = 0x10;

pub const PENDING_ALL: u8 = 0x1f;

/// The bit that stands for an attribute in a mask of pending attributes; no bit
/// for an attribute that never changes out of band.
pub open spec fn pending_bit(attribute: AttributeId) -> u8 {
    match attribute {
        AttributeId::LocalTemperature => PENDING_LOCAL_TEMPERATURE,
        AttributeId::OccupiedHeatingSetpoint => PENDING_OCCUPIED_HEATING_SETPOINT,
        AttributeId::SystemMode => PENDING_SYSTEM_MODE,
        AttributeId::MinHeatSetpointLimit => PENDING_MIN_LIMIT,
        AttributeId::MaxHeatSetpointLimit => PENDING_MAX_LIMIT,
        _ => 0,
    }
}

/// Whether the mask marks the attribute.
pub open spec fn marks(mask: u8, attribute: AttributeId) -> bool {
    mask & pending_bit(attribute) != 0
}

/// The attributes that the mask marks.
pub open spec fn marked(mask: u8) -> Set<AttributeId> {
    Set::new(|attribute: AttributeId| marks(mask, attribute))
}

/// The attributes that can be pending, in ascending order of their numbers.
pub open spec fn pending_order() -> Seq<AttributeId> {
    seq![
        AttributeId::LocalTemperature,
        AttributeId::OccupiedHeatingSetpoint,
        AttributeId::MinHeatSetpointLimit,
        AttributeId::MaxHeatSetpointLimit,
        AttributeId::SystemMode,
    ]
}

/// The attributes of a set that can be pending, in ascending order of their
/// numbers.
pub open spec fn in_order(attributes: Set<AttributeId>) -> Seq<AttributeId> {
    pending_order().filter(|attribute: AttributeId| attributes.contains(attribute))
}

/// The masks that the two operations on them can give: no bit at all, and the
/// bits of both.
pub(crate) proof fn lemma_mask_operations(a: u8, b: u8)
    ensures
        marked(0) == Set::<AttributeId>::empty(),
        marked(a | b) == marked(a).union(marked(b)),
        a <= PENDING_ALL && b <= PENDING_ALL ==> a | b <= PENDING_ALL,
        a <= PENDING_ALL && a != 0 ==> exists|attribute: AttributeId| marks(a, attribute),
{
    assert forall|attribute: AttributeId| !marks(0, attribute) by {
        let bit = pending_bit(attribute);
        assert(0u8 & bit == 0) by (bit_vector);
    }
    assert(marked(0) =~= Set::<AttributeId>::empty());
    assert forall|attribute: AttributeId|
        marks(a | b, attribute) == (marks(a, attribute) || marks(b, attribute)) by {
        let bit = pending_bit(attribute);
        assert(((a | b) & bit != 0) == (a & bit != 0 || b & bit != 0)) by (bit_vector);
    }
    assert(marked(a | b) =~= marked(a).union(marked(b)));
    assert(a <= 0x1f && b <= 0x1f ==> a | b <= 0x1f) by (bit_vector);
    assert(a <= 0x1f && a != 0 ==> a & 0x01 != 0 || a & 0x02 != 0 || a & 0x04 != 0 || a & 0x08 != 0
        || a & 0x10 != 0) by (bit_vector);
    if a <= PENDING_ALL && a != 0 {
        if a & 0x01 != 0 {
            assert(marks(a, AttributeId::LocalTemperature));
        } else if a & 0x02 != 0 {
            assert(marks(a, AttributeId::OccupiedHeatingSetpoint));
        } else if a & 0x04 != 0 {
            assert(marks(a, AttributeId::SystemMode));
        } else if a & 0x08 != 0 {
            assert(marks(a, AttributeId::MinHeatSetpointLimit));
        } else {
            assert(marks(a, AttributeId::MaxHeatSetpointLimit));
        }
    }
}

impl OutOfBandMessage {
    /// The attributes that the message is about.
    pub open spec fn attributes(self) -> Set<AttributeId> {
        match self {
            OutOfBandMessage::LocalTemperature => set![AttributeId::LocalTemperature],
            OutOfBandMessage::OccupiedHeatingSetpoint => set![AttributeId::OccupiedHeatingSetpoint],
            OutOfBandMessage::SystemMode => set![AttributeId::SystemMode],
            OutOfBandMessage::SetpointLimits => set![
                AttributeId::MinHeatSetpointLimit,
                AttributeId::MaxHeatSetpointLimit,
            ],
            OutOfBandMessage::Update => pending_order().to_set(),
        }
    }

    /// The mask whose bits stand for the attributes of the message.
    pub open spec fn mask(self) -> u8 {
        match self {
            OutOfBandMessage::LocalTemperature => PENDING_LOCAL_TEMPERATURE,
            OutOfBandMessage::OccupiedHeatingSetpoint => PENDING_OCCUPIED_HEATING_SETPOINT,
            OutOfBandMessage::SystemMode => PENDING_SYSTEM_MODE,
            OutOfBandMessage::SetpointLimits => (PENDING_MIN_LIMIT + PENDING_MAX_LIMIT) as u8,
            OutOfBandMessage::Update => PENDING_ALL,
        }
    }

    /// The mask of the attributes that this message marks as needing a report.
    pub fn pending(&self) -> (mask: u8)
        ensures
            mask == self.mask(),
            mask <= PENDING_ALL,
            marked(mask) == self.attributes(),
    {
        let mask: u8 = match self {
            OutOfBandMessage::LocalTemperature => PENDING_LOCAL_TEMPERATURE,
            OutOfBandMessage::OccupiedHeatingSetpoint => PENDING_OCCUPIED_HEATING_SETPOINT,
            OutOfBandMessage::SystemMode => PENDING_SYSTEM_MODE,
            OutOfBandMessage::SetpointLimits => PENDING_MIN_LIMIT | PENDING_MAX_LIMIT,
            OutOfBandMessage::Update => PENDING_ALL,
        };
        proof {
            assert(0x08u8 | 0x10u8 == 0x18u8) by (bit_vector);
            lemma_message_mask(*self);
        }
        mask
    }
}

/// What the bits of a message's mask stand for.
proof fn lemma_message_mask(message: OutOfBandMessage)
    ensures
        message.mask() <= PENDING_ALL,
        marked(message.mask()) == message.attributes(),
{
    assert(forall|m: u8| m & 0u8 == 0u8) by (bit_vector);
    assert(0x01u8 & 0x01 != 0 && 0x01u8 & 0x02 == 0 && 0x01u8 & 0x04 == 0 && 0x01u8 & 0x08 == 0
        && 0x01u8 & 0x10 == 0) by (bit_vector);
    assert(0x02u8 & 0x01 == 0 && 0x02u8 & 0x02 != 0 && 0x02u8 & 0x04 == 0 && 0x02u8 & 0x08 == 0
        && 0x02u8 & 0x10 == 0) by (bit_vector);
    assert(0x04u8 & 0x01 == 0 && 0x04u8 & 0x02 == 0 && 0x04u8 & 0x04 != 0 && 0x04u8 & 0x08 == 0
        && 0x04u8 & 0x10 == 0) by (bit_vector);
    assert(0x18u8 & 0x01 == 0 && 0x18u8 & 0x02 == 0 && 0x18u8 & 0x04 == 0 && 0x18u8 & 0x08 != 0
        && 0x18u8 & 0x10 != 0) by (bit_vector);
    assert(0x1fu8 & 0x01 != 0 && 0x1fu8 & 0x02 != 0 && 0x1fu8 & 0x04 != 0 && 0x1fu8 & 0x08 != 0
        && 0x1fu8 & 0x10 != 0) by (bit_vector);
    let order = pending_order();
    assert(order[0] is LocalTemperature && order[1] is OccupiedHeatingSetpoint
        && order[2] is MinHeatSetpointLimit && order[3] is MaxHeatSetpointLimit
        && order[4] is SystemMode);
    assert(marked(message.mask()) =~= message.attributes());
}

/// The attributes that await a report.
///
/// Messages accumulate in a mask, so that two changes that land back to back
/// are both remembered.
pub struct PendingAttributes {
    mask: u8,
}

impl PendingAttributes {
    /// No bit is set that stands for no attribute.
    #[verifier::type_invariant]
    spec fn only_attribute_bits(self) -> bool {
        self.mask <= PENDING_ALL
    }

    /// The attributes that await a report.
    pub closed spec fn view(&self) -> Set<AttributeId> {
        marked(self.mask)
    }

    /// Nothing pending.
    pub fn new() -> (pending: Self)
        ensures
            pending@ == Set::<AttributeId>::empty(),
    {
        proof {
            lemma_mask_operations(0, 0);
        }
        PendingAttributes { mask: 0 }
    }

    /// Adds the attributes that the message is about.
    pub fn add(&mut self, message: OutOfBandMessage)
        ensures
            final(self)@ == old(self)@.union(message.attributes()),
    {
        let bits: u8 = message.pending();
        proof {
            use_type_invariant(&*self);
            lemma_mask_operations(self.mask, bits);
        }
        self.mask = self.mask | bits;
    }

    /// Takes the whole mask, once there is anything in it.
    pub fn take(&mut self) -> (taken: Option<u8>)
        ensures
            taken is Some <==> old(self)@ != Set::<AttributeId>::empty(),
            taken matches Some(mask) ==> mask <= PENDING_ALL && marked(mask) == old(self)@,
            final(self)@ == Set::<AttributeId>::empty(),
    {
        proof {
            use_type_invariant(&*self);
            lemma_mask_operations(self.mask, 0);
            if self.mask != 0 {
                let attribute = choose|attribute: AttributeId| marks(self.mask, attribute);
                assert(self@.contains(attribute));
            }
        }
        if self.mask != 0 {
            let mask: u8 = self.mask;
            self.mask = 0;
            Some(mask)
        } else {
            None
        }
    }
}

} // verus!
