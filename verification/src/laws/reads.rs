//! What can be asked of the handler: the values of the attributes, and what the
//! device makes of them.

use vstd::prelude::*;

use crate::cluster::{ControlSequenceOfOperationEnum, EndptId, SystemModeEnum};
use crate::error::{Error, ErrorCode};
use crate::handler::{Dataver, HandlerAsyncAdaptor, ThermostatHandler};
use crate::hooks::{HookCall, ThermostatHooks};
use crate::journal::Event;
use crate::laws::requests;
use crate::laws::startup;

verus! {

/// A read gives what the device has stored.
pub proof fn law_a_read_gives_what_is_stored<H: ThermostatHooks>(
    handler: &ThermostatHandler<H>,
    setpoint: Result<i16, Error>,
    min_limit: Result<i16, Error>,
    max_limit: Result<i16, Error>,
    mode: Result<SystemModeEnum, Error>,
)
    requires
        call_ensures(ThermostatHandler::<H>::occupied_heating_setpoint, (handler,), setpoint),
        call_ensures(ThermostatHandler::<H>::min_heat_setpoint_limit, (handler,), min_limit),
        call_ensures(ThermostatHandler::<H>::max_heat_setpoint_limit, (handler,), max_limit),
        call_ensures(ThermostatHandler::<H>::system_mode, (handler,), mode),
    ensures
        setpoint == Ok::<i16, Error>(handler.hooks.control().setpoint),
        min_limit == Ok::<i16, Error>(handler.hooks.control().min_limit),
        max_limit == Ok::<i16, Error>(handler.hooks.control().max_limit),
        mode == Ok::<SystemModeEnum, Error>(handler.hooks.control().mode),
{
}

/// A read gives what the manufacturer fixed.
pub proof fn law_a_read_gives_what_is_fixed<H: ThermostatHooks>(
    handler: &ThermostatHandler<H>,
    abs_min: Result<i16, Error>,
    abs_max: Result<i16, Error>,
    sequence: Result<ControlSequenceOfOperationEnum, Error>,
)
    requires
        call_ensures(ThermostatHandler::<H>::abs_min_heat_setpoint_limit, (handler,), abs_min),
        call_ensures(ThermostatHandler::<H>::abs_max_heat_setpoint_limit, (handler,), abs_max),
        call_ensures(ThermostatHandler::<H>::control_sequence_of_operation, (handler,), sequence),
    ensures
        abs_min == Ok::<i16, Error>(H::ABS_MIN_HEAT_SETPOINT),
        abs_max == Ok::<i16, Error>(H::ABS_MAX_HEAT_SETPOINT),
        sequence == Ok::<ControlSequenceOfOperationEnum, Error>(H::CONTROL_SEQUENCE_OF_OPERATION),
{
}

/// The local temperature is what the device knows, unless the device is not to
/// expose it; then it is never given.
pub proof fn law_the_local_temperature<H: ThermostatHooks>(
    handler: &ThermostatHandler<H>,
    result: Result<Option<i16>, Error>,
)
    requires
        call_ensures(ThermostatHandler::<H>::local_temperature, (handler,), result),
    ensures
        result is Ok,
        (H::metadata().feature_map / 64) % 2 == 1 ==> result->Ok_0 is None,
        (H::metadata().feature_map / 64) % 2 == 0 ==> result->Ok_0 == handler.hooks.temperature(),
{
    let map = H::metadata().feature_map;
    assert((map & 0x40 == 0x40) == ((map / 64) % 2 == 1)) by (bit_vector);
}

/// Features are supported when no one of them is missing from the feature map.
pub proof fn law_features_are_supported_together<H: ThermostatHooks>(
    features: u32,
    supported: bool,
)
    requires
        call_ensures(ThermostatHandler::<H>::supports_feature, (features,), supported),
    ensures
        supported <==> features & !H::metadata().feature_map == 0,
{
    let map = H::metadata().feature_map;
    assert((map & features == features) == (features & !map == 0)) by (bit_vector);
}

/// The effective limits are the stored ones where these are served, else those of
/// the manufacturer; a setpoint is brought between them.
pub proof fn law_the_effective_limits<H: ThermostatHooks>(
    handler: &ThermostatHandler<H>,
    served: bool,
    lo: i16,
    hi: i16,
    value: i32,
    clamped: i16,
)
    requires
        call_ensures(ThermostatHandler::<H>::has_limits, (), served),
        call_ensures(ThermostatHandler::<H>::min_setpoint, (handler,), lo),
        call_ensures(ThermostatHandler::<H>::max_setpoint, (handler,), hi),
        call_ensures(ThermostatHandler::<H>::clamp_setpoint, (handler, value), clamped),
        lo <= hi,
    ensures
        served <==> requests::limits_served::<H>(),
        served ==> lo == handler.hooks.control().min_limit && hi
            == handler.hooks.control().max_limit,
        !served ==> lo == H::ABS_MIN_HEAT_SETPOINT && hi == H::ABS_MAX_HEAT_SETPOINT,
        startup::brought_into(value as int, lo as int, hi as int, clamped as int),
{
}

/// The supported modes are `Off` and `Heat`.
pub proof fn law_the_supported_modes<H: ThermostatHooks>(mode: SystemModeEnum, supported: bool)
    requires
        call_ensures(ThermostatHandler::<H>::is_supported_system_mode, (mode,), supported),
    ensures
        supported <==> mode == SystemModeEnum::Off || mode == SystemModeEnum::Heat,
{
}

/// Applying pushes the stored mode and setpoint onto the device, and nothing else
/// happens.
pub proof fn law_the_stored_state_is_applied<H: ThermostatHooks>(
    handler: &mut ThermostatHandler<H>,
)
    requires
        call_ensures(ThermostatHandler::<H>::apply, (handler,), ()),
    ensures
        ({
            let stored = old(handler).hooks.control();
            let record = requests::made(HookCall::Apply(stored.mode, stored.setpoint));
            &&& final(handler).hooks.calls() =~= old(handler).hooks.calls().push(record)
            &&& final(handler).journal@ =~= old(handler).journal@.push(Event::Called(record))
            &&& final(handler).hooks.control() == stored
        }),
        final(handler).dataver == old(handler).dataver,
        final(handler).endpoint_id == old(handler).endpoint_id,
        final(handler).pending == old(handler).pending,
{
}

/// A handler starts with what it is given and with nothing to report; the node
/// hosts the handler as it is.
pub proof fn law_a_new_handler<H: ThermostatHooks>(
    dataver: Dataver,
    endpoint_id: EndptId,
    hooks: H,
    handler: ThermostatHandler<H>,
    hosted: HandlerAsyncAdaptor<ThermostatHandler<H>>,
)
    requires
        call_ensures(ThermostatHandler::<H>::new, (dataver, endpoint_id, hooks), handler),
        call_ensures(ThermostatHandler::<H>::adapt, (handler,), hosted),
    ensures
        handler.dataver == dataver,
        handler.endpoint_id == endpoint_id,
        handler.hooks == hooks,
        handler.journal@.len() == 0,
        forall|attribute| !handler.pending@.contains(attribute),
        hosted.0 == handler,
{
}

/// The data version moves on by one, from the highest to zero, and nothing else
/// changes.
pub proof fn law_the_data_version_moves_on<H: ThermostatHooks>(
    handler: &mut ThermostatHandler<H>,
    fixed: &ThermostatHandler<H>,
    version: u32,
    first: u32,
    fresh: Dataver,
)
    requires
        call_ensures(ThermostatHandler::<H>::dataver_changed, (handler,), ()),
        call_ensures(ThermostatHandler::<H>::dataver, (fixed,), version),
        call_ensures(Dataver::new, (first,), fresh),
    ensures
        old(handler).dataver.version < 0xffff_ffff ==> final(handler).dataver.version == old(
            handler,
        ).dataver.version + 1,
        old(handler).dataver.version == 0xffff_ffff ==> final(handler).dataver.version == 0,
        final(handler).endpoint_id == old(handler).endpoint_id,
        final(handler).hooks == old(handler).hooks,
        final(handler).pending == old(handler).pending,
        final(handler).journal == old(handler).journal,
        version == fixed.dataver.version,
        fresh.version == first,
{
}

/// A data version by itself moves on in the same way.
pub proof fn law_a_data_version_moves_on(dataver: &mut Dataver, fixed: &Dataver, version: u32)
    requires
        call_ensures(Dataver::changed, (dataver,), ()),
        call_ensures(Dataver::get, (fixed,), version),
    ensures
        old(dataver).version < 0xffff_ffff ==> final(dataver).version == old(dataver).version + 1,
        old(dataver).version == 0xffff_ffff ==> final(dataver).version == 0,
        version == fixed.version,
{
}

/// The commands of features that are not served are not found, whatever is asked.
pub proof fn law_other_commands_are_not_found<H: ThermostatHooks, R, P>(
    handler: &ThermostatHandler<H>,
    request: R,
    response: P,
    plain: Result<(), Error>,
    built: Result<P, Error>,
)
    requires
        ({
            ||| call_ensures(
                ThermostatHandler::<H>::handle_set_weekly_schedule::<R>,
                (handler, request),
                plain,
            )
            ||| call_ensures(
                ThermostatHandler::<H>::handle_clear_weekly_schedule,
                (handler,),
                plain,
            )
            ||| call_ensures(
                ThermostatHandler::<H>::handle_set_active_schedule_request::<R>,
                (handler, request),
                plain,
            )
            ||| call_ensures(
                ThermostatHandler::<H>::handle_set_active_preset_request::<R>,
                (handler, request),
                plain,
            )
            ||| call_ensures(
                ThermostatHandler::<H>::handle_remove_thermostat_suggestion::<R>,
                (handler, request),
                plain,
            )
        }),
        ({
            ||| call_ensures(
                ThermostatHandler::<H>::handle_get_weekly_schedule::<R, P>,
                (handler, request, response),
                built,
            )
            ||| call_ensures(
                ThermostatHandler::<H>::handle_add_thermostat_suggestion::<R, P>,
                (handler, request, response),
                built,
            )
            ||| call_ensures(
                ThermostatHandler::<H>::handle_atomic_request::<R, P>,
                (handler, request, response),
                built,
            )
        }),
    ensures
        plain matches Err(error) && error.code == ErrorCode::CommandNotFound,
        built matches Err(error) && error.code == ErrorCode::CommandNotFound,
{
}

/// What a device that omits the setpoint limits answers.
pub proof fn law_omitted_limits<H: ThermostatHooks>(
    min_limit: i16,
    max_limit: i16,
    refusal: Result<(), Error>,
)
    requires
        call_ensures(H::omitted_min_heat_setpoint_limit, (), min_limit),
        call_ensures(H::omitted_max_heat_setpoint_limit, (), max_limit),
        call_ensures(H::refuse_omitted_limit, (), refusal),
    ensures
        min_limit == H::ABS_MIN_HEAT_SETPOINT,
        max_limit == H::ABS_MAX_HEAT_SETPOINT,
        refusal matches Err(error) && error.code == ErrorCode::AttributeNotFound,
{
}

/// A borrowed device tells what the device tells, and makes the same promises.
pub proof fn law_a_borrowed_device_tells_the_same<T: ThermostatHooks>(
    device: &mut T,
    call: HookCall,
    temperature: Option<i16>,
    setpoint: i16,
    min_limit: i16,
    max_limit: i16,
    mode: SystemModeEnum,
)
    requires
        call_ensures(<&mut T as ThermostatHooks>::local_temperature, (&device,), temperature),
        call_ensures(<&mut T as ThermostatHooks>::occupied_heating_setpoint, (&device,), setpoint),
        call_ensures(<&mut T as ThermostatHooks>::min_heat_setpoint_limit, (&device,), min_limit),
        call_ensures(<&mut T as ThermostatHooks>::max_heat_setpoint_limit, (&device,), max_limit),
        call_ensures(<&mut T as ThermostatHooks>::system_mode, (&device,), mode),
    ensures
        temperature == (*old(device)).temperature(),
        setpoint == (*old(device)).control().setpoint,
        min_limit == (*old(device)).control().min_limit,
        max_limit == (*old(device)).control().max_limit,
        mode == (*old(device)).control().mode,
        <&mut T as ThermostatHooks>::carries_out(call) == T::carries_out(call),
        <&mut T as ThermostatHooks>::fails_cleanly() == T::fails_cleanly(),
{
}

/// An error has the code that it was made with.
pub proof fn law_an_error_has_its_code(
    code: ErrorCode,
    made: Error,
    error: &Error,
    told: ErrorCode,
)
    requires
        call_ensures(Error::new, (code,), made),
        call_ensures(Error::code, (error,), told),
    ensures
        made.code == code,
        told == error.code,
{
}

} // verus!
