//! The controller's parameter table.

use crate::frame::FrameId;
use crate::parameter::{CanBitSelection, CanMap, Extractor, Parameter};
use crate::registry::Registry;
use crate::value::Value;
use vstd::prelude::*;

verus! {

/// Number of parameters in the table.
pub const NUM_PARAMETERS: usize = 43;

/// The parameters, in table order.
#[derive(Clone, Copy, Debug, PartialEq, Eq, Structural)]
pub enum ParameterId {
    TicksMs,
    AuxVoltage,
    BatteryTMin,
    BatteryTMax,
    BatteryVMin,
    BatteryVMax,
    Soc,
    HeaterT,
    HeaterHeating,
    HeaterPowerPercent,
    CabinT,
    PcbT,
    ReqWakeupAndContactor,
    ReqHeaterPowerPercent,
    MainContactor,
    PrechargeFailed,
    Balancing,
    ObcDcv,
    ObcDcc,
    AcVoltage,
    PdmState,
    OutlanderHeaterT,
    OutlanderHeaterHeating,
    OutlanderHeaterPowerPercent,
    CruiseActive,
    CruiseRequested,
    HvacRequested,
    FoccciCPPWM,
    ActivateEvse,
    ActivateObc,
    BmsMaxChargeCurrent,
    BmsMaxDischargeCurrent,
    CcsCurrent,
    ChargeComplete,
    LastSeenSoc,
    Precharging,
    DcdcStatus,
    BmsChargeCompleteVoltageSetting,
    FoccciPlugPresent,
    EvaporatorT,
    AcCompressorPercent,
    ChargeCompleteVoltageSettingRequested,
    DcdcCurrent,
}

/// A parameter that no frame carries: its value comes from the controller
/// itself.
pub open spec fn local_parameter(
    id: ParameterId,
    display_name: &'static str,
    decimals: u8,
    unit: &'static str,
    log_threshold: Option<u64>,
) -> Parameter {
    Parameter {
        id: id.index(),
        display_name,
        value: Value::Unknown,
        decimals,
        unit,
        can_map: None,
        report_map: None,
        update_timestamp: 0,
        log_threshold,
    }
}

/// A parameter decoded from the frame with the standard identifier `frame`.
pub open spec fn mapped_parameter(
    id: ParameterId,
    display_name: &'static str,
    decimals: u8,
    unit: &'static str,
    frame: u16,
    bits: CanBitSelection,
    scale: i64,
    log_threshold: Option<u64>,
) -> Parameter {
    Parameter {
        id: id.index(),
        display_name,
        value: Value::Unknown,
        decimals,
        unit,
        can_map: Some(CanMap { id: FrameId::Standard(frame), bits, scale }),
        report_map: None,
        update_timestamp: 0,
        log_threshold,
    }
}

fn local(
    id: ParameterId,
    display_name: &'static str,
    decimals: u8,
    unit: &'static str,
    log_threshold: Option<u64>,
) -> (p: Parameter)
    ensures
        p == local_parameter(id, display_name, decimals, unit, log_threshold),
{
    Parameter {
        id: id.index(),
        display_name,
        value: Value::Unknown,
        decimals,
        unit,
        can_map: None,
        report_map: None,
        update_timestamp: 0,
        log_threshold,
    }
}

fn mapped(
    id: ParameterId,
    display_name: &'static str,
    decimals: u8,
    unit: &'static str,
    frame: u16,
    bits: CanBitSelection,
    scale: i64,
    log_threshold: Option<u64>,
) -> (p: Parameter)
    ensures
        p == mapped_parameter(id, display_name, decimals, unit, frame, bits, scale, log_threshold),
{
    Parameter {
        id: id.index(),
        display_name,
        value: Value::Unknown,
        decimals,
        unit,
        can_map: Some(CanMap { id: FrameId::Standard(frame), bits, scale }),
        report_map: None,
        update_timestamp: 0,
        log_threshold,
    }
}

impl ParameterId {
    /// The parameter's position in the table.
    pub open spec fn spec_index(self) -> usize {
        match self {
            ParameterId::TicksMs => 0,
            ParameterId::AuxVoltage => 1,
            ParameterId::BatteryTMin => 2,
            ParameterId::BatteryTMax => 3,
            ParameterId::BatteryVMin => 4,
            ParameterId::BatteryVMax => 5,
            ParameterId::Soc => 6,
            ParameterId::HeaterT => 7,
            ParameterId::HeaterHeating => 8,
            ParameterId::HeaterPowerPercent => 9,
            ParameterId::CabinT => 10,
            ParameterId::PcbT => 11,
            ParameterId::ReqWakeupAndContactor => 12,
            ParameterId::ReqHeaterPowerPercent => 13,
            ParameterId::MainContactor => 14,
            ParameterId::PrechargeFailed => 15,
            ParameterId::Balancing => 16,
            ParameterId::ObcDcv => 17,
            ParameterId::ObcDcc => 18,
            ParameterId::AcVoltage => 19,
            ParameterId::PdmState => 20,
            ParameterId::OutlanderHeaterT => 21,
            ParameterId::OutlanderHeaterHeating => 22,
            ParameterId::OutlanderHeaterPowerPercent => 23,
            ParameterId::CruiseActive => 24,
            ParameterId::CruiseRequested => 25,
            ParameterId::HvacRequested => 26,
            ParameterId::FoccciCPPWM => 27,
            ParameterId::ActivateEvse => 28,
            ParameterId::ActivateObc => 29,
            ParameterId::BmsMaxChargeCurrent => 30,
            ParameterId::BmsMaxDischargeCurrent => 31,
            ParameterId::CcsCurrent => 32,
            ParameterId::ChargeComplete => 33,
            ParameterId::LastSeenSoc => 34,
            ParameterId::Precharging => 35,
            ParameterId::DcdcStatus => 36,
            ParameterId::BmsChargeCompleteVoltageSetting => 37,
            ParameterId::FoccciPlugPresent => 38,
            ParameterId::EvaporatorT => 39,
            ParameterId::AcCompressorPercent => 40,
            ParameterId::ChargeCompleteVoltageSettingRequested => 41,
            ParameterId::DcdcCurrent => 42,
        }
    }

    /// The parameter's position in the table.
    #[verifier::when_used_as_spec(spec_index)]
    pub fn index(self) -> (i: usize)
        ensures
            i == self.spec_index(),
            i < NUM_PARAMETERS,
    {
        match self {
            ParameterId::TicksMs => 0,
            ParameterId::AuxVoltage => 1,
            ParameterId::BatteryTMin => 2,
            ParameterId::BatteryTMax => 3,
            ParameterId::BatteryVMin => 4,
            ParameterId::BatteryVMax => 5,
            ParameterId::Soc => 6,
            ParameterId::HeaterT => 7,
            ParameterId::HeaterHeating => 8,
            ParameterId::HeaterPowerPercent => 9,
            ParameterId::CabinT => 10,
            ParameterId::PcbT => 11,
            ParameterId::ReqWakeupAndContactor => 12,
            ParameterId::ReqHeaterPowerPercent => 13,
            ParameterId::MainContactor => 14,
            ParameterId::PrechargeFailed => 15,
            ParameterId::Balancing => 16,
            ParameterId::ObcDcv => 17,
            ParameterId::ObcDcc => 18,
            ParameterId::AcVoltage => 19,
            ParameterId::PdmState => 20,
            ParameterId::OutlanderHeaterT => 21,
            ParameterId::OutlanderHeaterHeating => 22,
            ParameterId::OutlanderHeaterPowerPercent => 23,
            ParameterId::CruiseActive => 24,
            ParameterId::CruiseRequested => 25,
            ParameterId::HvacRequested => 26,
            ParameterId::FoccciCPPWM => 27,
            ParameterId::ActivateEvse => 28,
            ParameterId::ActivateObc => 29,
            ParameterId::BmsMaxChargeCurrent => 30,
            ParameterId::BmsMaxDischargeCurrent => 31,
            ParameterId::CcsCurrent => 32,
            ParameterId::ChargeComplete => 33,
            ParameterId::LastSeenSoc => 34,
            ParameterId::Precharging => 35,
            ParameterId::DcdcStatus => 36,
            ParameterId::BmsChargeCompleteVoltageSetting => 37,
            ParameterId::FoccciPlugPresent => 38,
            ParameterId::EvaporatorT => 39,
            ParameterId::AcCompressorPercent => 40,
            ParameterId::ChargeCompleteVoltageSettingRequested => 41,
            ParameterId::DcdcCurrent => 42,
        }
    }

    /// The parameter at a position of the table, if there is one.
    pub fn from_usize(value: usize) -> (r: Option<ParameterId>)
        ensures
            r is Some <==> value < NUM_PARAMETERS,
            r matches Some(id) ==> id.index() == value,
    {
        match value {
            0 => Some(ParameterId::TicksMs),
            1 => Some(ParameterId::AuxVoltage),
            2 => Some(ParameterId::BatteryTMin),
            3 => Some(ParameterId::BatteryTMax),
            4 => Some(ParameterId::BatteryVMin),
            5 => Some(ParameterId::BatteryVMax),
            6 => Some(ParameterId::Soc),
            7 => Some(ParameterId::HeaterT),
            8 => Some(ParameterId::HeaterHeating),
            9 => Some(ParameterId::HeaterPowerPercent),
            10 => Some(ParameterId::CabinT),
            11 => Some(ParameterId::PcbT),
            12 => Some(ParameterId::ReqWakeupAndContactor),
            13 => Some(ParameterId::ReqHeaterPowerPercent),
            14 => Some(ParameterId::MainContactor),
            15 => Some(ParameterId::PrechargeFailed),
            16 => Some(ParameterId::Balancing),
            17 => Some(ParameterId::ObcDcv),
            18 => Some(ParameterId::ObcDcc),
            19 => Some(ParameterId::AcVoltage),
            20 => Some(ParameterId::PdmState),
            21 => Some(ParameterId::OutlanderHeaterT),
            22 => Some(ParameterId::OutlanderHeaterHeating),
            23 => Some(ParameterId::OutlanderHeaterPowerPercent),
            24 => Some(ParameterId::CruiseActive),
            25 => Some(ParameterId::CruiseRequested),
            26 => Some(ParameterId::HvacRequested),
            27 => Some(ParameterId::FoccciCPPWM),
            28 => Some(ParameterId::ActivateEvse),
            29 => Some(ParameterId::ActivateObc),
            30 => Some(ParameterId::BmsMaxChargeCurrent),
            31 => Some(ParameterId::BmsMaxDischargeCurrent),
            32 => Some(ParameterId::CcsCurrent),
            33 => Some(ParameterId::ChargeComplete),
            34 => Some(ParameterId::LastSeenSoc),
            35 => Some(ParameterId::Precharging),
            36 => Some(ParameterId::DcdcStatus),
            37 => Some(ParameterId::BmsChargeCompleteVoltageSetting),
            38 => Some(ParameterId::FoccciPlugPresent),
            39 => Some(ParameterId::EvaporatorT),
            40 => Some(ParameterId::AcCompressorPercent),
            41 => Some(ParameterId::ChargeCompleteVoltageSettingRequested),
            42 => Some(ParameterId::DcdcCurrent),
            _ => None,
        }
    }

    /// The parameter as the table defines it at startup.
    pub open spec fn definition(self) -> Parameter {
        match self {
            ParameterId::TicksMs => local_parameter(ParameterId::TicksMs, "Ticks", 0, "ms", None),
            ParameterId::AuxVoltage => local_parameter(
                ParameterId::AuxVoltage,
                "Aux battery",
                2,
                "V",
                Some(100_000),
            ),
            ParameterId::BatteryTMin => mapped_parameter(
                ParameterId::BatteryTMin,
                "Bat T min",
                0,
                "degC",
                0x101,
                CanBitSelection::Int8(3),
                1_000_000,
                None,
            ),
            ParameterId::BatteryTMax => mapped_parameter(
                ParameterId::BatteryTMax,
                "Bat T max",
                0,
                "degC",
                0x101,
                CanBitSelection::Int8(4),
                1_000_000,
                None,
            ),
            ParameterId::BatteryVMin => mapped_parameter(
                ParameterId::BatteryVMin,
                "Bat V min",
                2,
                "V",
                0x101,
                CanBitSelection::BeUnsigned(0, 12),
                10_000,
                Some(100_000),
            ),
            ParameterId::BatteryVMax => mapped_parameter(
                ParameterId::BatteryVMax,
                "Bat V max",
                2,
                "V",
                0x101,
                CanBitSelection::BeUnsigned(12, 12),
                10_000,
                Some(100_000),
            ),
            ParameterId::Soc => mapped_parameter(
                ParameterId::Soc,
                "SoC",
                0,
                "%",
                0x102,
                CanBitSelection::Uint8(6),
                392_157,
                None,
            ),
            ParameterId::HeaterT => mapped_parameter(
                ParameterId::HeaterT,
                "Heater T",
                0,
                "degC",
                0x398,
                CanBitSelection::Function(Extractor::Warmer { first: 3, second: 4, offset: 40 }),
                1_000_000,
                None,
            ),
            ParameterId::HeaterHeating => mapped_parameter(
                ParameterId::HeaterHeating,
                "Heater heating",
                0,
                "",
                0x398,
                CanBitSelection::Function(Extractor::NonZero { byte: 5, set: 1 }),
                1_000_000,
                None,
            ),
            ParameterId::HeaterPowerPercent => mapped_parameter(
                ParameterId::HeaterPowerPercent,
                "Heater power",
                0,
                "%",
                0x398,
                CanBitSelection::Function(Extractor::NonZero { byte: 5, set: 100 }),
                1_000_000,
                None,
            ),
            ParameterId::CabinT => mapped_parameter(
                ParameterId::CabinT,
                "Cabin T",
                0,
                "degC",
                0x404,
                CanBitSelection::Int8(1),
                1_000_000,
                None,
            ),
            ParameterId::PcbT => local_parameter(ParameterId::PcbT, "PcbT", 1, "degC", None),
            ParameterId::ReqWakeupAndContactor => local_parameter(
                ParameterId::ReqWakeupAndContactor,
                "ReqWakeupAndContactor",
                0,
                "",
                None,
            ),
            ParameterId::ReqHeaterPowerPercent => local_parameter(
                ParameterId::ReqHeaterPowerPercent,
                "ReqHeaterPowerPercent",
                0,
                "%",
                None,
            ),
            ParameterId::MainContactor => mapped_parameter(
                ParameterId::MainContactor,
                "Main contactor",
                0,
                "",
                0x100,
                CanBitSelection::Bit(2),
                1_000_000,
                None,
            ),
            ParameterId::PrechargeFailed => mapped_parameter(
                ParameterId::PrechargeFailed,
                "Precharge failed",
                0,
                "",
                0x100,
                CanBitSelection::Bit(6),
                1_000_000,
                None,
            ),
            ParameterId::Balancing => mapped_parameter(
                ParameterId::Balancing,
                "Balancing",
                0,
                "",
                0x101,
                CanBitSelection::Bit(40),
                1_000_000,
                None,
            ),
            ParameterId::ObcDcv => mapped_parameter(
                ParameterId::ObcDcv,
                "OBC DC V",
                0,
                "V",
                0x389,
                CanBitSelection::Uint8(0),
                2_000_000,
                None,
            ),
            ParameterId::ObcDcc => mapped_parameter(
                ParameterId::ObcDcc,
                "OBC DC A",
                1,
                "A",
                0x389,
                CanBitSelection::Uint8(2),
                100_000,
                None,
            ),
            ParameterId::AcVoltage => mapped_parameter(
                ParameterId::AcVoltage,
                "OBC AC V",
                0,
                "V",
                0x389,
                CanBitSelection::Uint8(1),
                1_000_000,
                None,
            ),
            ParameterId::PdmState => mapped_parameter(
                ParameterId::PdmState,
                "PdmState",
                0,
                "",
                0x203,
                CanBitSelection::BeUnsigned(0, 4),
                1_000_000,
                None,
            ),
            ParameterId::OutlanderHeaterT => mapped_parameter(
                ParameterId::OutlanderHeaterT,
                "OutlH T",
                0,
                "degC",
                0x398,
                CanBitSelection::Function(Extractor::Warmer { first: 3, second: 4, offset: 40 }),
                1_000_000,
                None,
            ),
            ParameterId::OutlanderHeaterHeating => mapped_parameter(
                ParameterId::OutlanderHeaterHeating,
                "OutlH heating",
                0,
                "",
                0x398,
                CanBitSelection::Function(Extractor::NonZero { byte: 5, set: 1 }),
                1_000_000,
                None,
            ),
            ParameterId::OutlanderHeaterPowerPercent => mapped_parameter(
                ParameterId::OutlanderHeaterPowerPercent,
                "OutlH power",
                0,
                "%",
                0x398,
                CanBitSelection::Function(Extractor::NonZero { byte: 5, set: 100 }),
                1_000_000,
                None,
            ),
            ParameterId::CruiseActive => mapped_parameter(
                ParameterId::CruiseActive,
                "Cruise active",
                0,
                "",
                0x300,
                CanBitSelection::Bit(2),
                1_000_000,
                None,
            ),
            ParameterId::CruiseRequested => local_parameter(
                ParameterId::CruiseRequested,
                "Cruise requested",
                0,
                "",
                None,
            ),
            ParameterId::HvacRequested => mapped_parameter(
                ParameterId::HvacRequested,
                "HVAC requested",
                0,
                "",
                0x570,
                CanBitSelection::Function(
                    Extractor::Guarded { guard_byte: 0, guard_value: 2, byte: 4, expected: 1 },
                ),
                1_000_000,
                None,
            ),
            ParameterId::FoccciCPPWM => mapped_parameter(
                ParameterId::FoccciCPPWM,
                "Foccci CP PWM",
                0,
                "%",
                0x506,
                CanBitSelection::Uint8(1),
                1_000_000,
                None,
            ),
            ParameterId::ActivateEvse => local_parameter(
                ParameterId::ActivateEvse,
                "Activate EVSE",
                0,
                "",
                None,
            ),
            ParameterId::ActivateObc => local_parameter(
                ParameterId::ActivateObc,
                "Activate OBC",
                0,
                "",
                None,
            ),
            ParameterId::BmsMaxChargeCurrent => mapped_parameter(
                ParameterId::BmsMaxChargeCurrent,
                "Max charge",
                1,
                "A",
                0x102,
                CanBitSelection::BeUnsigned(16, 16),
                100_000,
                None,
            ),
            ParameterId::BmsMaxDischargeCurrent => mapped_parameter(
                ParameterId::BmsMaxDischargeCurrent,
                "Max discharge",
                1,
                "A",
                0x102,
                CanBitSelection::BeUnsigned(32, 16),
                100_000,
                None,
            ),
            ParameterId::CcsCurrent => mapped_parameter(
                ParameterId::CcsCurrent,
                "CCS",
                0,
                "A",
                0x506,
                CanBitSelection::Uint8(5),
                2_000_000,
                None,
            ),
            ParameterId::ChargeComplete => local_parameter(
                ParameterId::ChargeComplete,
                "ChargeComplete",
                0,
                "",
                None,
            ),
            ParameterId::LastSeenSoc => local_parameter(
                ParameterId::LastSeenSoc,
                "SoC (last seen)",
                0,
                "%",
                None,
            ),
            ParameterId::Precharging => mapped_parameter(
                ParameterId::Precharging,
                "Precharging",
                0,
                "",
                0x100,
                CanBitSelection::Bit(5),
                1_000_000,
                None,
            ),
            ParameterId::DcdcStatus => mapped_parameter(
                ParameterId::DcdcStatus,
                "DCDC status",
                0,
                "",
                0x377,
                CanBitSelection::Uint8(7),
                1_000_000,
                None,
            ),
            ParameterId::BmsChargeCompleteVoltageSetting => mapped_parameter(
                ParameterId::BmsChargeCompleteVoltageSetting,
                "BmsChgCompV",
                0,
                "mV",
                0x104,
                CanBitSelection::BeUnsigned(0, 16),
                1_000_000,
                None,
            ),
            ParameterId::FoccciPlugPresent => mapped_parameter(
                ParameterId::FoccciPlugPresent,
                "FoccciPlugPresent",
                0,
                "",
                0x506,
                CanBitSelection::Bit(2),
                1_000_000,
                None,
            ),
            ParameterId::EvaporatorT => local_parameter(
                ParameterId::EvaporatorT,
                "A/C evaporator T",
                0,
                "degC",
                Some(5_000_000),
            ),
            ParameterId::AcCompressorPercent => local_parameter(
                ParameterId::AcCompressorPercent,
                "A/C compressor power %",
                0,
                "%",
                Some(5_000_000),
            ),
            ParameterId::ChargeCompleteVoltageSettingRequested => local_parameter(
                ParameterId::ChargeCompleteVoltageSettingRequested,
                "ChgCompV requested",
                0,
                "mV",
                None,
            ),
            ParameterId::DcdcCurrent => local_parameter(
                ParameterId::DcdcCurrent,
                "DCDC current",
                0,
                "A",
                None,
            ),
        }
    }

    /// Builds the parameter as the table defines it at startup.
    pub fn define(self) -> (p: Parameter)
        ensures
            p == self.definition(),
    {
        match self {
            ParameterId::TicksMs => local(ParameterId::TicksMs, "Ticks", 0, "ms", None),
            ParameterId::AuxVoltage => local(
                ParameterId::AuxVoltage,
                "Aux battery",
                2,
                "V",
                Some(100_000),
            ),
            ParameterId::BatteryTMin => mapped(
                ParameterId::BatteryTMin,
                "Bat T min",
                0,
                "degC",
                0x101,
                CanBitSelection::Int8(3),
                1_000_000,
                None,
            ),
            ParameterId::BatteryTMax => mapped(
                ParameterId::BatteryTMax,
                "Bat T max",
                0,
                "degC",
                0x101,
                CanBitSelection::Int8(4),
                1_000_000,
                None,
            ),
            ParameterId::BatteryVMin => mapped(
                ParameterId::BatteryVMin,
                "Bat V min",
                2,
                "V",
                0x101,
                CanBitSelection::BeUnsigned(0, 12),
                10_000,
                Some(100_000),
            ),
            ParameterId::BatteryVMax => mapped(
                ParameterId::BatteryVMax,
                "Bat V max",
                2,
                "V",
                0x101,
                CanBitSelection::BeUnsigned(12, 12),
                10_000,
                Some(100_000),
            ),
            ParameterId::Soc => mapped(
                ParameterId::Soc,
                "SoC",
                0,
                "%",
                0x102,
                CanBitSelection::Uint8(6),
                392_157,
                None,
            ),
            ParameterId::HeaterT => mapped(
                ParameterId::HeaterT,
                "Heater T",
                0,
                "degC",
                0x398,
                CanBitSelection::Function(Extractor::Warmer { first: 3, second: 4, offset: 40 }),
                1_000_000,
                None,
            ),
            ParameterId::HeaterHeating => mapped(
                ParameterId::HeaterHeating,
                "Heater heating",
                0,
                "",
                0x398,
                CanBitSelection::Function(Extractor::NonZero { byte: 5, set: 1 }),
                1_000_000,
                None,
            ),
            ParameterId::HeaterPowerPercent => mapped(
                ParameterId::HeaterPowerPercent,
                "Heater power",
                0,
                "%",
                0x398,
                CanBitSelection::Function(Extractor::NonZero { byte: 5, set: 100 }),
                1_000_000,
                None,
            ),
            ParameterId::CabinT => mapped(
                ParameterId::CabinT,
                "Cabin T",
                0,
                "degC",
                0x404,
                CanBitSelection::Int8(1),
                1_000_000,
                None,
            ),
            ParameterId::PcbT => local(ParameterId::PcbT, "PcbT", 1, "degC", None),
            ParameterId::ReqWakeupAndContactor => local(
                ParameterId::ReqWakeupAndContactor,
                "ReqWakeupAndContactor",
                0,
                "",
                None,
            ),
            ParameterId::ReqHeaterPowerPercent => local(
                ParameterId::ReqHeaterPowerPercent,
                "ReqHeaterPowerPercent",
                0,
                "%",
                None,
            ),
            ParameterId::MainContactor => mapped(
                ParameterId::MainContactor,
                "Main contactor",
                0,
                "",
                0x100,
                CanBitSelection::Bit(2),
                1_000_000,
                None,
            ),
            ParameterId::PrechargeFailed => mapped(
                ParameterId::PrechargeFailed,
                "Precharge failed",
                0,
                "",
                0x100,
                CanBitSelection::Bit(6),
                1_000_000,
                None,
            ),
            ParameterId::Balancing => mapped(
                ParameterId::Balancing,
                "Balancing",
                0,
                "",
                0x101,
                CanBitSelection::Bit(40),
                1_000_000,
                None,
            ),
            ParameterId::ObcDcv => mapped(
                ParameterId::ObcDcv,
                "OBC DC V",
                0,
                "V",
                0x389,
                CanBitSelection::Uint8(0),
                2_000_000,
                None,
            ),
            ParameterId::ObcDcc => mapped(
                ParameterId::ObcDcc,
                "OBC DC A",
                1,
                "A",
                0x389,
                CanBitSelection::Uint8(2),
                100_000,
                None,
            ),
            ParameterId::AcVoltage => mapped(
                ParameterId::AcVoltage,
                "OBC AC V",
                0,
                "V",
                0x389,
                CanBitSelection::Uint8(1),
                1_000_000,
                None,
            ),
            ParameterId::PdmState => mapped(
                ParameterId::PdmState,
                "PdmState",
                0,
                "",
                0x203,
                CanBitSelection::BeUnsigned(0, 4),
                1_000_000,
                None,
            ),
            ParameterId::OutlanderHeaterT => mapped(
                ParameterId::OutlanderHeaterT,
                "OutlH T",
                0,
                "degC",
                0x398,
                CanBitSelection::Function(Extractor::Warmer { first: 3, second: 4, offset: 40 }),
                1_000_000,
                None,
            ),
            ParameterId::OutlanderHeaterHeating => mapped(
                ParameterId::OutlanderHeaterHeating,
                "OutlH heating",
                0,
                "",
                0x398,
                CanBitSelection::Function(Extractor::NonZero { byte: 5, set: 1 }),
                1_000_000,
                None,
            ),
            ParameterId::OutlanderHeaterPowerPercent => mapped(
                ParameterId::OutlanderHeaterPowerPercent,
                "OutlH power",
                0,
                "%",
                0x398,
                CanBitSelection::Function(Extractor::NonZero { byte: 5, set: 100 }),
                1_000_000,
                None,
            ),
            ParameterId::CruiseActive => mapped(
                ParameterId::CruiseActive,
                "Cruise active",
                0,
                "",
                0x300,
                CanBitSelection::Bit(2),
                1_000_000,
                None,
            ),
            ParameterId::CruiseRequested => local(
                ParameterId::CruiseRequested,
                "Cruise requested",
                0,
                "",
                None,
            ),
            ParameterId::HvacRequested => mapped(
                ParameterId::HvacRequested,
                "HVAC requested",
                0,
                "",
                0x570,
                CanBitSelection::Function(
                    Extractor::Guarded { guard_byte: 0, guard_value: 2, byte: 4, expected: 1 },
                ),
                1_000_000,
                None,
            ),
            ParameterId::FoccciCPPWM => mapped(
                ParameterId::FoccciCPPWM,
                "Foccci CP PWM",
                0,
                "%",
                0x506,
                CanBitSelection::Uint8(1),
                1_000_000,
                None,
            ),
            ParameterId::ActivateEvse => local(
                ParameterId::ActivateEvse,
                "Activate EVSE",
                0,
                "",
                None,
            ),
            ParameterId::ActivateObc => local(
                ParameterId::ActivateObc,
                "Activate OBC",
                0,
                "",
                None,
            ),
            ParameterId::BmsMaxChargeCurrent => mapped(
                ParameterId::BmsMaxChargeCurrent,
                "Max charge",
                1,
                "A",
                0x102,
                CanBitSelection::BeUnsigned(16, 16),
                100_000,
                None,
            ),
            ParameterId::BmsMaxDischargeCurrent => mapped(
                ParameterId::BmsMaxDischargeCurrent,
                "Max discharge",
                1,
                "A",
                0x102,
                CanBitSelection::BeUnsigned(32, 16),
                100_000,
                None,
            ),
            ParameterId::CcsCurrent => mapped(
                ParameterId::CcsCurrent,
                "CCS",
                0,
                "A",
                0x506,
                CanBitSelection::Uint8(5),
                2_000_000,
                None,
            ),
            ParameterId::ChargeComplete => local(
                ParameterId::ChargeComplete,
                "ChargeComplete",
                0,
                "",
                None,
            ),
            ParameterId::LastSeenSoc => local(
                ParameterId::LastSeenSoc,
                "SoC (last seen)",
                0,
                "%",
                None,
            ),
            ParameterId::Precharging => mapped(
                ParameterId::Precharging,
                "Precharging",
                0,
                "",
                0x100,
                CanBitSelection::Bit(5),
                1_000_000,
                None,
            ),
            ParameterId::DcdcStatus => mapped(
                ParameterId::DcdcStatus,
                "DCDC status",
                0,
                "",
                0x377,
                CanBitSelection::Uint8(7),
                1_000_000,
                None,
            ),
            ParameterId::BmsChargeCompleteVoltageSetting => mapped(
                ParameterId::BmsChargeCompleteVoltageSetting,
                "BmsChgCompV",
                0,
                "mV",
                0x104,
                CanBitSelection::BeUnsigned(0, 16),
                1_000_000,
                None,
            ),
            ParameterId::FoccciPlugPresent => mapped(
                ParameterId::FoccciPlugPresent,
                "FoccciPlugPresent",
                0,
                "",
                0x506,
                CanBitSelection::Bit(2),
                1_000_000,
                None,
            ),
            ParameterId::EvaporatorT => local(
                ParameterId::EvaporatorT,
                "A/C evaporator T",
                0,
                "degC",
                Some(5_000_000),
            ),
            ParameterId::AcCompressorPercent => local(
                ParameterId::AcCompressorPercent,
                "A/C compressor power %",
                0,
                "%",
                Some(5_000_000),
            ),
            ParameterId::ChargeCompleteVoltageSettingRequested => local(
                ParameterId::ChargeCompleteVoltageSettingRequested,
                "ChgCompV requested",
                0,
                "mV",
                None,
            ),
            ParameterId::DcdcCurrent => local(
                ParameterId::DcdcCurrent,
                "DCDC current",
                0,
                "A",
                None,
            ),
        }
    }
}

/// The table as it stands at startup: every parameter at its position,
/// unknown and never updated.
pub open spec fn initial_table() -> Seq<Parameter> {
    Seq::new(NUM_PARAMETERS as nat, |i: int| id_at(i).definition())
}

/// The parameter whose position is `i`.
pub open spec fn id_at(i: int) -> ParameterId {
    choose|id: ParameterId| id.index() == i
}

/// Every position below `NUM_PARAMETERS` is the index of exactly one
/// parameter.
pub proof fn lemma_id_at(id: ParameterId)
    ensures
        id_at(id.index() as int) == id,
        id.index() < NUM_PARAMETERS,
{
    let other = id_at(id.index() as int);
    assert(other.index() == id.index());
}

/// Every definition carries the index of its parameter, no value and no
/// update time.
pub proof fn lemma_definition_fresh(id: ParameterId)
    ensures
        id.definition().id == id.index(),
        id.definition().value == Value::Unknown,
        id.definition().update_timestamp == 0,
{
}

/// Builds the registry with the table as it stands at startup.
pub fn init_parameters() -> (registry: Registry)
    ensures
        registry@ == initial_table(),
        registry.wf(),
        registry@.len() == NUM_PARAMETERS,
{
    let mut params: Vec<Parameter> = Vec::new();
    let mut i: usize = 0;
    while i < NUM_PARAMETERS
        invariant
            i <= NUM_PARAMETERS,
            params@.len() == i,
            forall|j: int| 0 <= j < i ==> (#[trigger] params@[j]) == id_at(j).definition(),
            forall|j: int| 0 <= j < i ==> (#[trigger] params@[j]).id == j,
        decreases NUM_PARAMETERS - i,
    {
        match ParameterId::from_usize(i) {
            Some(id) => {
                proof {
                    lemma_id_at(id);
                    lemma_definition_fresh(id);
                }
                params.push(id.define());
            },
            None => {},
        }
        i += 1;
    }
    assert(params@ =~= initial_table());
    Registry { params }
}

} // verus!
