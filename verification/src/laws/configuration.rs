//! What the check of a configuration is for: nothing that can be served is
//! turned away, and what is turned away is told why.

use vstd::prelude::*;

use crate::cluster::{
    AttrId, AttributeId, Cluster, ClusterView, CmdId, CommandId, ControlSequenceOfOperationEnum,
    SystemModeEnum,
};
use crate::handler::ThermostatHandler;
use crate::hooks::ThermostatHooks;
use crate::simulation;
use crate::text;
use crate::validation;
use crate::validation::ConfigurationError;

verus! {

/// The four attributes that every thermostat with heating has are served.
pub open spec fn has_mandatory_attributes(cluster: ClusterView) -> bool {
    &&& cluster.attributes.contains(0x0000)
    &&& cluster.attributes.contains(0x0012)
    &&& cluster.attributes.contains(0x001B)
    &&& cluster.attributes.contains(0x001C)
}

/// One of the setpoint limits is served.
pub open spec fn has_a_limit(cluster: ClusterView) -> bool {
    ||| cluster.attributes.contains(0x0003)
    ||| cluster.attributes.contains(0x0004)
    ||| cluster.attributes.contains(0x0015)
    ||| cluster.attributes.contains(0x0016)
}

/// One of the setpoint limits is not served.
pub open spec fn lacks_a_limit(cluster: ClusterView) -> bool {
    ||| !cluster.attributes.contains(0x0003)
    ||| !cluster.attributes.contains(0x0004)
    ||| !cluster.attributes.contains(0x0015)
    ||| !cluster.attributes.contains(0x0016)
}

/// The configuration passes the first so many of the checks, which come in a fixed
/// order.
pub open spec fn passes(
    cluster: ClusterView,
    abs_min: i16,
    abs_max: i16,
    sequence: ControlSequenceOfOperationEnum,
    checks: int,
) -> bool {
    &&& checks >= 1 ==> cluster.revision == 11
    &&& checks >= 2 ==> cluster.feature_map % 2 == 1
    &&& checks >= 3 ==> cluster.feature_map == 0x01 || cluster.feature_map == 0x41
    &&& checks >= 4 ==> has_mandatory_attributes(cluster)
    &&& checks >= 5 ==> !(has_a_limit(cluster) && lacks_a_limit(cluster))
    &&& checks >= 6 ==> cluster.events.len() == 0
    &&& checks >= 7 ==> cluster.commands.contains(0x00)
    &&& checks >= 8 ==> abs_min <= abs_max
    &&& checks >= 9 ==> sequence == ControlSequenceOfOperationEnum::HeatingOnly || sequence
        == ControlSequenceOfOperationEnum::HeatingWithReheat
}

/// The verdict on a configuration is deserved: it passes every check, or the
/// fault that is named is there and everything that is checked before it is fine.
pub open spec fn is_deserved(
    cluster: ClusterView,
    abs_min: i16,
    abs_max: i16,
    sequence: ControlSequenceOfOperationEnum,
    verdict: Result<(), ConfigurationError>,
) -> bool {
    match verdict {
        Ok(()) => passes(cluster, abs_min, abs_max, sequence, 9),
        Err(ConfigurationError::Revision(revision)) => {
            &&& revision == cluster.revision
            &&& revision != 11
        },
        Err(ConfigurationError::NoHeating) => {
            &&& passes(cluster, abs_min, abs_max, sequence, 1)
            &&& cluster.feature_map % 2 == 0
        },
        Err(ConfigurationError::UnsupportedFeatures(features)) => {
            &&& passes(cluster, abs_min, abs_max, sequence, 2)
            &&& features != 0
            &&& cluster.feature_map == features + 0x01 || cluster.feature_map == features + 0x41
            &&& features & 0x41 == 0
        },
        Err(ConfigurationError::MissingAttributes) => {
            &&& passes(cluster, abs_min, abs_max, sequence, 3)
            &&& !has_mandatory_attributes(cluster)
        },
        Err(ConfigurationError::PartialLimits) => {
            &&& passes(cluster, abs_min, abs_max, sequence, 4)
            &&& has_a_limit(cluster)
            &&& lacks_a_limit(cluster)
        },
        Err(ConfigurationError::Events) => {
            &&& passes(cluster, abs_min, abs_max, sequence, 5)
            &&& cluster.events.len() > 0
        },
        Err(ConfigurationError::MissingCommand) => {
            &&& passes(cluster, abs_min, abs_max, sequence, 6)
            &&& !cluster.commands.contains(0x00)
        },
        Err(ConfigurationError::AbsoluteLimits(min, max)) => {
            &&& passes(cluster, abs_min, abs_max, sequence, 7)
            &&& abs_min > abs_max
            &&& min == abs_min
            &&& max == abs_max
        },
        Err(ConfigurationError::ControlSequence) => {
            &&& passes(cluster, abs_min, abs_max, sequence, 8)
            &&& sequence != ControlSequenceOfOperationEnum::HeatingOnly
            &&& sequence != ControlSequenceOfOperationEnum::HeatingWithReheat
        },
    }
}

/// The bits of a feature map, as far as they matter here.
proof fn lemma_feature_map(map: u32)
    ensures
        map & 0x01 == 0x01 <==> map % 2 == 1,
        map & !0x41u32 == 0 && map & 0x01 == 0x01 <==> map == 0x01 || map == 0x41,
        (map & !0x41u32) & 0x41 == 0,
        map & 0x01 == 0x01 ==> map == (map & !0x41u32) + 0x01 || map == (map & !0x41u32) + 0x41,
{
    assert(map & 0x01 == 0x01 <==> map % 2 == 1) by (bit_vector);
    assert(map & !0x41u32 == 0 && map & 0x01 == 0x01 <==> map == 0x01 || map == 0x41)
        by (bit_vector);
    assert((map & !0x41u32) & 0x41 == 0) by (bit_vector);
    assert(map & 0x01 == 0x01 ==> map == (map & !0x41u32) + 0x01 || map == (map & !0x41u32) + 0x41)
        by (bit_vector);
}

/// Every configuration gets the verdict that it deserves.
pub proof fn law_a_verdict_is_deserved(
    cluster: &Cluster,
    abs_min: i16,
    abs_max: i16,
    sequence: ControlSequenceOfOperationEnum,
    verdict: Result<(), ConfigurationError>,
)
    requires
        call_ensures(
            validation::check_configuration,
            (cluster, abs_min, abs_max, sequence),
            verdict,
        ),
    ensures
        is_deserved(cluster@, abs_min, abs_max, sequence, verdict),
{
    lemma_feature_map(cluster.feature_map);
    lemma_limits(cluster@);
}

/// The handler judges its device in the same way.
pub proof fn law_the_handler_judges_its_device<H: ThermostatHooks>(
    handler: &ThermostatHandler<H>,
    verdict: Result<(), ConfigurationError>,
)
    requires
        call_ensures(ThermostatHandler::<H>::validate, (handler,), verdict),
    ensures
        is_deserved(
            H::metadata(),
            H::ABS_MIN_HEAT_SETPOINT,
            H::ABS_MAX_HEAT_SETPOINT,
            H::CONTROL_SEQUENCE_OF_OPERATION,
            verdict,
        ),
{
    lemma_feature_map(H::metadata().feature_map);
    lemma_limits(H::metadata());
}

/// When the setpoint limits belong together.
proof fn lemma_limits(cluster: ClusterView)
    ensures
        forall|configuration: validation::Configuration|
            configuration.cluster == cluster ==> (#[trigger] configuration.limits_belong_together()
                <==> !(has_a_limit(cluster) && lacks_a_limit(cluster))),
{
    let limits = validation::limit_attributes();
    assert(limits.contains(AttributeId::AbsMinHeatSetpointLimit));
    assert(limits.contains(AttributeId::AbsMaxHeatSetpointLimit));
    assert(limits.contains(AttributeId::MinHeatSetpointLimit));
    assert(limits.contains(AttributeId::MaxHeatSetpointLimit));
}

/// The absolute limits decide nothing as long as they are the right way round.
pub proof fn law_ordered_limits_do_not_matter(
    cluster: &Cluster,
    sequence: ControlSequenceOfOperationEnum,
    abs_min: i16,
    abs_max: i16,
    verdict: Result<(), ConfigurationError>,
    other_min: i16,
    other_max: i16,
    other_verdict: Result<(), ConfigurationError>,
)
    requires
        call_ensures(
            validation::check_configuration,
            (cluster, abs_min, abs_max, sequence),
            verdict,
        ),
        call_ensures(
            validation::check_configuration,
            (cluster, other_min, other_max, sequence),
            other_verdict,
        ),
        abs_min <= abs_max,
        other_min <= other_max,
    ensures
        verdict is Ok <==> other_verdict is Ok,
        verdict is Err ==> verdict->Err_0 == other_verdict->Err_0,
        verdict matches Err(error) ==> error !is AbsoluteLimits,
{
    law_a_verdict_is_deserved(cluster, abs_min, abs_max, sequence, verdict);
    law_a_verdict_is_deserved(cluster, other_min, other_max, sequence, other_verdict);
}

/// The value of a digit, or nothing that a digit can be.
pub open spec fn digit_value(character: char) -> int {
    let code = character as int;
    if '0' as int <= code <= '9' as int {
        code - '0' as int
    } else if 'a' as int <= code <= 'f' as int {
        code - 'a' as int + 10
    } else {
        -1
    }
}

/// The number that digits stand for, the most significant first.
pub open spec fn number(digits: Seq<char>, base: int) -> int
    decreases digits.len(),
{
    if digits.len() == 0 {
        0
    } else {
        base * number(digits.drop_last(), base) + digit_value(digits.last())
    }
}

/// Every character is a digit of the given base.
pub open spec fn all_digits(digits: Seq<char>, base: int) -> bool {
    forall|i: int| 0 <= i < digits.len() ==> 0 <= digit_value(#[trigger] digits[i]) < base
}

/// The decimal notation of a natural number.
pub open spec fn is_numeral(digits: Seq<char>, value: int) -> bool {
    &&& digits.len() > 0
    &&& all_digits(digits, 10)
    &&& number(digits, 10) == value
    &&& digits[0] == '0' ==> digits.len() == 1
}

/// The decimal notation of a number.
pub open spec fn is_decimal(digits: Seq<char>, value: int) -> bool {
    if value < 0 {
        &&& digits.len() > 0
        &&& digits[0] == '-'
        &&& is_numeral(digits.skip(1), -value)
    } else {
        is_numeral(digits, value)
    }
}

/// The hexadecimal notation of a natural number, filled up with zeros.
pub open spec fn is_hexadecimal(digits: Seq<char>, value: int, width: int) -> bool {
    &&& digits.len() == width
    &&& all_digits(digits, 16)
    &&& number(digits, 16) == value
}

/// A single digit.
proof fn lemma_digit(value: int)
    requires
        0 <= value < 16,
    ensures
        text::digit(value).len() == 1,
        digit_value(text::digit(value)[0]) == value,
        text::digit(value)[0] == '0' ==> value == 0,
{
    reveal_strlit("0");
    reveal_strlit("1");
    reveal_strlit("2");
    reveal_strlit("3");
    reveal_strlit("4");
    reveal_strlit("5");
    reveal_strlit("6");
    reveal_strlit("7");
    reveal_strlit("8");
    reveal_strlit("9");
    reveal_strlit("a");
    reveal_strlit("b");
    reveal_strlit("c");
    reveal_strlit("d");
    reveal_strlit("e");
    reveal_strlit("f");
}

/// Decimal digits are read back.
proof fn lemma_decimal_digits(value: nat)
    ensures
        is_numeral(text::decimal_digits(value), value as int),
        value > 0 ==> text::decimal_digits(value)[0] != '0',
    decreases value,
{
    let digits = text::decimal_digits(value);
    lemma_digit((value % 10) as int);
    if value < 10 {
        assert(number(digits.drop_last(), 10) == 0);
    } else {
        lemma_decimal_digits(value / 10);
        assert(digits.drop_last() =~= text::decimal_digits(value / 10));
        assert(digits[0] == text::decimal_digits(value / 10)[0]);
    }
    assert(number(digits, 10) == 10 * number(digits.drop_last(), 10) + digit_value(digits.last()));
}

/// Decimal notation is read back.
proof fn lemma_decimal(value: int)
    ensures
        is_decimal(text::decimal(value), value),
{
    reveal_strlit("-");
    if value < 0 {
        lemma_decimal_digits((-value) as nat);
        assert(text::decimal(value).skip(1) =~= text::decimal_digits((-value) as nat));
    } else {
        lemma_decimal_digits(value as nat);
    }
}

/// How many numbers can be written with so many hexadecimal digits.
pub open spec fn numbers_of_width(width: nat) -> int
    decreases width,
{
    if width == 0 {
        1
    } else {
        16 * numbers_of_width((width - 1) as nat)
    }
}

/// Hexadecimal notation is read back, as much of it as there is room for.
proof fn lemma_hexadecimal(value: nat, width: nat)
    ensures
        numbers_of_width(width) > 0,
        is_hexadecimal(
            text::hexadecimal(value, width),
            value as int % numbers_of_width(width),
            width as int,
        ),
    decreases width,
{
    if width > 0 {
        let digits = text::hexadecimal(value, width);
        lemma_digit((value % 16) as int);
        lemma_hexadecimal(value / 16, (width - 1) as nat);
        vstd::arithmetic::div_mod::lemma_mod_breakdown(
            value as int,
            16,
            numbers_of_width((width - 1) as nat),
        );
        assert(digits.drop_last() =~= text::hexadecimal(value / 16, (width - 1) as nat));
    }
}

/// A number that was appended can be read back: an optional sign and decimal
/// digits without leading zeros.
pub proof fn law_a_decimal_number_reads_back(written: &mut String, value: i32)
    requires
        call_ensures(text::append_decimal, (written, value), ()),
    ensures
        exists|digits: Seq<char>| #[trigger]
            is_decimal(digits, value as int) && final(written)@ == old(written)@ + digits,
{
    lemma_decimal(value as int);
}

/// A number that was appended in hexadecimal notation can be read back, as much of
/// it as the width has room for.
pub proof fn law_a_hexadecimal_number_reads_back(written: &mut String, value: u32, width: u32)
    requires
        call_ensures(text::append_hexadecimal, (written, value, width), ()),
    ensures
        exists|digits: Seq<char>| #[trigger]
            is_hexadecimal(digits, value as int % numbers_of_width(width as nat), width as int)
                && final(written)@ == old(written)@ + digits,
{
    lemma_hexadecimal(value as nat, width as nat);
}

/// The words that stand around two numbers in a message.
pub open spec fn worded(
    message: Seq<char>,
    start: Seq<char>,
    first: Seq<char>,
    middle: Seq<char>,
    second: Seq<char>,
    end: Seq<char>,
) -> bool {
    message == "Thermostat validation: "@ + (start + first + middle + second + end)
}

/// The numbers in the message of an error are those of the error, whatever they
/// are.
pub proof fn law_a_message_names_its_numbers(error: &ConfigurationError, message: String)
    requires
        call_ensures(ConfigurationError::message, (error,), message),
    ensures
        match *error {
            ConfigurationError::Revision(revision) => exists|first: Seq<char>, second: Seq<char>|
                {
                    &&& is_decimal(first, 11)
                    &&& is_decimal(second, revision as int)
                    &&& #[trigger] worded(
                        message@,
                        "incorrect revision number: expected "@,
                        first,
                        " got "@,
                        second,
                        Seq::empty(),
                    )
                },
            ConfigurationError::UnsupportedFeatures(features) => exists|first: Seq<char>|
                {
                    &&& is_hexadecimal(first, features as int, 8)
                    &&& #[trigger] worded(
                        message@,
                        "unsupported features in the feature map: 0x"@,
                        first,
                        ". Only HEAT and LTNE are implemented"@,
                        Seq::empty(),
                        Seq::empty(),
                    )
                },
            ConfigurationError::AbsoluteLimits(min, max) => exists|
                first: Seq<char>,
                second: Seq<char>,
            |
                {
                    &&& is_decimal(first, min as int)
                    &&& is_decimal(second, max as int)
                    &&& #[trigger] worded(
                        message@,
                        "ABS_MIN_HEAT_SETPOINT ("@,
                        first,
                        ") must not exceed ABS_MAX_HEAT_SETPOINT ("@,
                        second,
                        ")"@,
                    )
                },
            _ => true,
        },
{
    match *error {
        ConfigurationError::Revision(revision) => {
            lemma_decimal(11);
            lemma_decimal(revision as int);
            let words = "incorrect revision number: expected "@ + text::decimal(11) + " got "@
                + text::decimal(revision as int);
            assert(words + Seq::<char>::empty() =~= words);
            assert(worded(
                message@,
                "incorrect revision number: expected "@,
                text::decimal(11),
                " got "@,
                text::decimal(revision as int),
                Seq::empty(),
            ));
        },
        ConfigurationError::UnsupportedFeatures(features) => {
            assert(numbers_of_width(8) == 0x1_0000_0000) by {
                assert(numbers_of_width(0) == 1);
                assert(numbers_of_width(1) == 0x10);
                assert(numbers_of_width(2) == 0x100);
                assert(numbers_of_width(3) == 0x1000);
                assert(numbers_of_width(4) == 0x1_0000);
                assert(numbers_of_width(5) == 0x10_0000);
                assert(numbers_of_width(6) == 0x100_0000);
                assert(numbers_of_width(7) == 0x1000_0000);
            }
            lemma_hexadecimal(features as nat, 8);
            assert(features as int % numbers_of_width(8) == features);
            let words = "unsupported features in the feature map: 0x"@ + text::hexadecimal(
                features as nat,
                8,
            ) + ". Only HEAT and LTNE are implemented"@;
            assert(words + Seq::<char>::empty() + Seq::<char>::empty() =~= words);
            assert(worded(
                message@,
                "unsupported features in the feature map: 0x"@,
                text::hexadecimal(features as nat, 8),
                ". Only HEAT and LTNE are implemented"@,
                Seq::empty(),
                Seq::empty(),
            ));
        },
        ConfigurationError::AbsoluteLimits(min, max) => {
            lemma_decimal(min as int);
            lemma_decimal(max as int);
            assert(worded(
                message@,
                "ABS_MIN_HEAT_SETPOINT ("@,
                text::decimal(min as int),
                ") must not exceed ABS_MAX_HEAT_SETPOINT ("@,
                text::decimal(max as int),
                ")"@,
            ));
        },
        _ => {},
    }
}

/// The numbers of the attributes.
pub proof fn law_the_attributes_have_their_numbers(attribute: AttributeId, id: AttrId)
    requires
        call_ensures(AttributeId::id, (attribute,), id),
    ensures
        id == 0x0000 <==> attribute == AttributeId::LocalTemperature,
        id == 0x0003 <==> attribute == AttributeId::AbsMinHeatSetpointLimit,
        id == 0x0004 <==> attribute == AttributeId::AbsMaxHeatSetpointLimit,
        id == 0x0012 <==> attribute == AttributeId::OccupiedHeatingSetpoint,
        id == 0x0015 <==> attribute == AttributeId::MinHeatSetpointLimit,
        id == 0x0016 <==> attribute == AttributeId::MaxHeatSetpointLimit,
        id == 0x001B <==> attribute == AttributeId::ControlSequenceOfOperation,
        id == 0x001C <==> attribute == AttributeId::SystemMode,
{
}

/// The numbers of the modes.
pub proof fn law_the_modes_have_their_numbers(mode: SystemModeEnum, code: u8)
    requires
        call_ensures(SystemModeEnum::code, (mode,), code),
    ensures
        code == 0 <==> mode == SystemModeEnum::Off,
        code == 1 <==> mode == SystemModeEnum::Auto,
        code == 3 <==> mode == SystemModeEnum::Cool,
        code == 4 <==> mode == SystemModeEnum::Heat,
        code == 5 <==> mode == SystemModeEnum::EmergencyHeat,
        code == 6 <==> mode == SystemModeEnum::Precooling,
        code == 7 <==> mode == SystemModeEnum::FanOnly,
        code == 8 <==> mode == SystemModeEnum::Dry,
        code == 9 <==> mode == SystemModeEnum::Sleep,
{
}

/// An element is served exactly when its number is listed, wherever in the list.
pub proof fn law_what_is_listed_is_served(
    cluster: &Cluster,
    attribute: AttributeId,
    id: AttrId,
    served: bool,
    command: CommandId,
    number: CmdId,
    accepted: bool,
)
    requires
        call_ensures(AttributeId::id, (attribute,), id),
        call_ensures(Cluster::serves, (cluster, attribute), served),
        call_ensures(CommandId::id, (command,), number),
        call_ensures(Cluster::accepts, (cluster, command), accepted),
    ensures
        served <==> exists|i: int|
            0 <= i < cluster.attributes@.len() && #[trigger] cluster.attributes@[i] == id,
        accepted <==> exists|i: int|
            0 <= i < cluster.commands@.len() && #[trigger] cluster.commands@[i] == number,
        number == 0x00,
{
}

/// The simulated devices serve every attribute that a heating-only thermostat can
/// serve, once and in ascending order, and nothing else.
pub proof fn law_the_elements_of_a_heating_only_thermostat(cluster: Cluster)
    requires
        call_ensures(simulation::heating_only_cluster, (), cluster),
    ensures
        cluster.id == 0x0201,
        cluster.revision == 11,
        cluster.feature_map == 0x01,
        cluster.attributes@ == seq![
            0x0000u32,
            0x0003,
            0x0004,
            0x0012,
            0x0015,
            0x0016,
            0x001B,
            0x001C,
        ],
        cluster.commands@ == seq![0x00u32],
        cluster.events@.len() == 0,
{
}

} // verus!
