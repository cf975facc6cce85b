use vstd::prelude::*;

verus! {

/// Bits of the pier fan's motor status register. Although the name is motor
/// status, it looks more like the motor error status; the name follows the
/// user manual.
#[derive(Debug, Clone, Copy, PartialEq, Eq, Structural)]
pub enum MotorStatusPierFan {
    FanBlocked,
    HallFailure,
    MotorOverheated,
    /// General error. This is set for every error.
    FanBad,
    /// Communication error between master controller and slave controller
    MasterSlaveError,
    PowerModuleOverheated,
    Spare6,
    /// 1-phase device
    MainsUndervoltage,
    Spare8,
    Spare9,
    Spare10,
    DcLinkUndervoltage,
    Spare12,
    Spare13,
    Spare14,
    Spare15,
}

impl MotorStatusPierFan {
    /// The bit position of this variant.
    pub open spec fn spec_value(self) -> u16 {
        match self {
            MotorStatusPierFan::FanBlocked => 0,
            MotorStatusPierFan::HallFailure => 1,
            MotorStatusPierFan::MotorOverheated => 2,
            MotorStatusPierFan::FanBad => 3,
            MotorStatusPierFan::MasterSlaveError => 4,
            MotorStatusPierFan::PowerModuleOverheated => 5,
            MotorStatusPierFan::Spare6 => 6,
            MotorStatusPierFan::MainsUndervoltage => 7,
            MotorStatusPierFan::Spare8 => 8,
            MotorStatusPierFan::Spare9 => 9,
            MotorStatusPierFan::Spare10 => 10,
            MotorStatusPierFan::DcLinkUndervoltage => 11,
            MotorStatusPierFan::Spare12 => 12,
            MotorStatusPierFan::Spare13 => 13,
            MotorStatusPierFan::Spare14 => 14,
            MotorStatusPierFan::Spare15 => 15,
        }
    }

    /// The bit position of this variant.
    pub fn value(&self) -> (value: u16)
        ensures
            value == self.spec_value(),
    {
        match self {
            MotorStatusPierFan::FanBlocked => 0,
            MotorStatusPierFan::HallFailure => 1,
            MotorStatusPierFan::MotorOverheated => 2,
            MotorStatusPierFan::FanBad => 3,
            MotorStatusPierFan::MasterSlaveError => 4,
            MotorStatusPierFan::PowerModuleOverheated => 5,
            MotorStatusPierFan::Spare6 => 6,
            MotorStatusPierFan::MainsUndervoltage => 7,
            MotorStatusPierFan::Spare8 => 8,
            MotorStatusPierFan::Spare9 => 9,
            MotorStatusPierFan::Spare10 => 10,
            MotorStatusPierFan::DcLinkUndervoltage => 11,
            MotorStatusPierFan::Spare12 => 12,
            MotorStatusPierFan::Spare13 => 13,
            MotorStatusPierFan::Spare14 => 14,
            MotorStatusPierFan::Spare15 => 15,
        }
    }

    /// The mask of this variant's bit: 1 shifted left by its position.
    pub open spec fn spec_bit_value(self) -> u16 {
        1u16 << self.spec_value()
    }

    /// The mask of this variant's bit: 1 shifted left by its position.
    pub fn bit_value(&self) -> (mask: u16)
        ensures
            mask == self.spec_bit_value(),
    {
        1u16 << self.value()
    }
}

/// Bits of the pier fan's warning register.
#[derive(Debug, Clone, Copy, PartialEq, Eq, Structural)]
pub enum WarningPierFan {
    /// Triggered in instances where an external force causes the motor to run
    /// in the wrong direction at high speed for a prolonged period of time so
    /// the motor is unable to start properly.
    BrakeOperation,
    DcLinkVoltageLow,
    ElectronicsTemperatureHigh,
    MotorTemperatureHigh,
    PowerModuleTemperatureHigh,
    PowerLimitationCurrentlyEngaged,
    /// DC-link voltage unstable -> Line impedance too high.
    LineImpedanceTooHigh,
    CurrentLimitationCurrentlyEngaged,
    SheddingFunctionActive,
    SupplyVoltageHigh,
    Spare10,
    DcLinkVoltageHigh,
    /// The motor should not be started when the heating is activated!
    HeatingActivated,
    /// Voltage at the analogue input < Limit value for cable break.
    CableBreakAtSetValueAnalogueInput,
    /// Actual speed is less than the speed limit set for speed monitoring.
    ActualSpeedBelowLimit,
    Spare15,
}

impl WarningPierFan {
    /// The bit position of this variant.
    pub open spec fn spec_value(self) -> u16 {
        match self {
            WarningPierFan::BrakeOperation => 0,
            WarningPierFan::DcLinkVoltageLow => 1,
            WarningPierFan::ElectronicsTemperatureHigh => 2,
            WarningPierFan::MotorTemperatureHigh => 3,
            WarningPierFan::PowerModuleTemperatureHigh => 4,
            WarningPierFan::PowerLimitationCurrentlyEngaged => 5,
            WarningPierFan::LineImpedanceTooHigh => 6,
            WarningPierFan::CurrentLimitationCurrentlyEngaged => 7,
            WarningPierFan::SheddingFunctionActive => 8,
            WarningPierFan::SupplyVoltageHigh => 9,
            WarningPierFan::Spare10 => 10,
            WarningPierFan::DcLinkVoltageHigh => 11,
            WarningPierFan::HeatingActivated => 12,
            WarningPierFan::CableBreakAtSetValueAnalogueInput => 13,
            WarningPierFan::ActualSpeedBelowLimit => 14,
            WarningPierFan::Spare15 => 15,
        }
    }

    /// The bit position of this variant.
    pub fn value(&self) -> (value: u16)
        ensures
            value == self.spec_value(),
    {
        match self {
            WarningPierFan::BrakeOperation => 0,
            WarningPierFan::DcLinkVoltageLow => 1,
            WarningPierFan::ElectronicsTemperatureHigh => 2,
            WarningPierFan::MotorTemperatureHigh => 3,
            WarningPierFan::PowerModuleTemperatureHigh => 4,
            WarningPierFan::PowerLimitationCurrentlyEngaged => 5,
            WarningPierFan::LineImpedanceTooHigh => 6,
            WarningPierFan::CurrentLimitationCurrentlyEngaged => 7,
            WarningPierFan::SheddingFunctionActive => 8,
            WarningPierFan::SupplyVoltageHigh => 9,
            WarningPierFan::Spare10 => 10,
            WarningPierFan::DcLinkVoltageHigh => 11,
            WarningPierFan::HeatingActivated => 12,
            WarningPierFan::CableBreakAtSetValueAnalogueInput => 13,
            WarningPierFan::ActualSpeedBelowLimit => 14,
            WarningPierFan::Spare15 => 15,
        }
    }

    /// The mask of this variant's bit: 1 shifted left by its position.
    pub open spec fn spec_bit_value(self) -> u16 {
        1u16 << self.spec_value()
    }

    /// The mask of this variant's bit: 1 shifted left by its position.
    pub fn bit_value(&self) -> (mask: u16)
        ensures
            mask == self.spec_bit_value(),
    {
        1u16 << self.value()
    }
}

/// Bits of the recirculation pump's control register.
#[derive(Debug, Clone, Copy, PartialEq, Eq, Structural)]
pub enum ControlStatusRecirculationPump {
    /// MPC: Multi-Pump Controller.
    /// DDD: Demand Driven Distribution. A Grundfos system for municipal water
    /// supply.
    ///
    /// Control bit that sets local or remote control.
    /// 0: Local
    /// 1: Remote (controlled by Modbus master).
    ///
    /// Set this bit to 1 if a Modbus master should control the booster system.
    ///
    /// For Hydro MPC and DDD, it is also necessary to enable bus control via
    /// the CU 35X control panel ("Settings" > "Secondary functions" >
    /// "Control source", select "From bus").
    /// If the RemoteAccessReq bit is set to logical 0, the Hydro MPC or DDD
    /// will operate with local mode settings as selected on the CU 35X control
    /// panel. If you want local control, select this from the CU 35X control
    /// panel ("Settings" > "Secondary functions" > "Control source", select
    /// "From the CU 35X"), and set the RemoteAccessReq bit to 0.
    RemoteAccessReq,
    /// Control bit that switches the booster system to on or off.
    /// 0: Off (stop)
    /// 1: On (start).
    OnOffReq,
    /// Control bit that resets alarms and warnings from the booster system.
    /// 0: No resetting
    /// 1: Resetting alarm.
    ///
    /// This control bit is triggered on rising edge only, i.e. setting logical
    /// 0 to 1.
    ResetAlarm,
    Spare3,
    /// Copies ControlMode, OperationMode and Setpoint to Local, when
    /// changing from Remote to Local.
    CopyToLocal,
    /// Resets the accumulation counters (volume and energy).
    /// 0: No resetting
    /// 1: Resetting.
    ResetAccCounters,
    Spare6,
    Spare7,
    Spare8,
    Spare9,
    Spare10,
    Spare11,
    Spare12,
    Spare13,
    Spare14,
    Spare15,
}

impl ControlStatusRecirculationPump {
    /// The bit position of this variant.
    pub open spec fn spec_value(self) -> u16 {
        match self {
            ControlStatusRecirculationPump::RemoteAccessReq => 0,
            ControlStatusRecirculationPump::OnOffReq => 1,
            ControlStatusRecirculationPump::ResetAlarm => 2,
            ControlStatusRecirculationPump::Spare3 => 3,
            ControlStatusRecirculationPump::CopyToLocal => 4,
            ControlStatusRecirculationPump::ResetAccCounters => 5,
            ControlStatusRecirculationPump::Spare6 => 6,
            ControlStatusRecirculationPump::Spare7 => 7,
            ControlStatusRecirculationPump::Spare8 => 8,
            ControlStatusRecirculationPump::Spare9 => 9,
            ControlStatusRecirculationPump::Spare10 => 10,
            ControlStatusRecirculationPump::Spare11 => 11,
            ControlStatusRecirculationPump::Spare12 => 12,
            ControlStatusRecirculationPump::Spare13 => 13,
            ControlStatusRecirculationPump::Spare14 => 14,
            ControlStatusRecirculationPump::Spare15 => 15,
        }
    }

    /// The bit position of this variant.
    pub fn value(&self) -> (value: u16)
        ensures
            value == self.spec_value(),
    {
        match self {
            ControlStatusRecirculationPump::RemoteAccessReq => 0,
            ControlStatusRecirculationPump::OnOffReq => 1,
            ControlStatusRecirculationPump::ResetAlarm => 2,
            ControlStatusRecirculationPump::Spare3 => 3,
            ControlStatusRecirculationPump::CopyToLocal => 4,
            ControlStatusRecirculationPump::ResetAccCounters => 5,
            ControlStatusRecirculationPump::Spare6 => 6,
            ControlStatusRecirculationPump::Spare7 => 7,
            ControlStatusRecirculationPump::Spare8 => 8,
            ControlStatusRecirculationPump::Spare9 => 9,
            ControlStatusRecirculationPump::Spare10 => 10,
            ControlStatusRecirculationPump::Spare11 => 11,
            ControlStatusRecirculationPump::Spare12 => 12,
            ControlStatusRecirculationPump::Spare13 => 13,
            ControlStatusRecirculationPump::Spare14 => 14,
            ControlStatusRecirculationPump::Spare15 => 15,
        }
    }

    /// The mask of this variant's bit: 1 shifted left by its position.
    pub open spec fn spec_bit_value(self) -> u16 {
        1u16 << self.spec_value()
    }

    /// The mask of this variant's bit: 1 shifted left by its position.
    pub fn bit_value(&self) -> (mask: u16)
        ensures
            mask == self.spec_bit_value(),
    {
        1u16 << self.value()
    }
}

/// Control modes of the recirculation pump, by their register code.
#[derive(Debug, Clone, Copy, PartialEq, Eq, Structural)]
pub enum ControlModeRecirculationPump {
    ConstantSpeed,
    ConstantFrequency,
    ConstantHead,
    ConstantPressure,
    ConstantDifferentialPressure,
    ProportionalPressure,
    ConstantFlow,
    ConstantTemperature,
    ConstantLevel,
    /// Automatic adaption for DDD (Demand Driven Distribution. A Grundfos
    /// system for municipal water supply.)
    AutoAdapt,
    FlowAdapt,
    ClosedLoopSensor,
}

impl ControlModeRecirculationPump {
    /// The register code of this variant.
    pub open spec fn spec_value(self) -> u8 {
        match self {
            ControlModeRecirculationPump::ConstantSpeed => 0,
            ControlModeRecirculationPump::ConstantFrequency => 1,
            ControlModeRecirculationPump::ConstantHead => 3,
            ControlModeRecirculationPump::ConstantPressure => 4,
            ControlModeRecirculationPump::ConstantDifferentialPressure => 5,
            ControlModeRecirculationPump::ProportionalPressure => 6,
            ControlModeRecirculationPump::ConstantFlow => 7,
            ControlModeRecirculationPump::ConstantTemperature => 8,
            ControlModeRecirculationPump::ConstantLevel => 10,
            ControlModeRecirculationPump::AutoAdapt => 128,
            ControlModeRecirculationPump::FlowAdapt => 129,
            ControlModeRecirculationPump::ClosedLoopSensor => 130,
        }
    }

    /// The register code of this variant.
    pub fn value(&self) -> (value: u8)
        ensures
            value == self.spec_value(),
    {
        match self {
            ControlModeRecirculationPump::ConstantSpeed => 0,
            ControlModeRecirculationPump::ConstantFrequency => 1,
            ControlModeRecirculationPump::ConstantHead => 3,
            ControlModeRecirculationPump::ConstantPressure => 4,
            ControlModeRecirculationPump::ConstantDifferentialPressure => 5,
            ControlModeRecirculationPump::ProportionalPressure => 6,
            ControlModeRecirculationPump::ConstantFlow => 7,
            ControlModeRecirculationPump::ConstantTemperature => 8,
            ControlModeRecirculationPump::ConstantLevel => 10,
            ControlModeRecirculationPump::AutoAdapt => 128,
            ControlModeRecirculationPump::FlowAdapt => 129,
            ControlModeRecirculationPump::ClosedLoopSensor => 130,
        }
    }

    /// The variant whose register code is `value`, if any.
    pub open spec fn spec_from_repr(value: u8) -> Option<ControlModeRecirculationPump> {
        match value {
            0 => Option::Some(ControlModeRecirculationPump::ConstantSpeed),
            1 => Option::Some(ControlModeRecirculationPump::ConstantFrequency),
            3 => Option::Some(ControlModeRecirculationPump::ConstantHead),
            4 => Option::Some(ControlModeRecirculationPump::ConstantPressure),
            5 => Option::Some(ControlModeRecirculationPump::ConstantDifferentialPressure),
            6 => Option::Some(ControlModeRecirculationPump::ProportionalPressure),
            7 => Option::Some(ControlModeRecirculationPump::ConstantFlow),
            8 => Option::Some(ControlModeRecirculationPump::ConstantTemperature),
            10 => Option::Some(ControlModeRecirculationPump::ConstantLevel),
            128 => Option::Some(ControlModeRecirculationPump::AutoAdapt),
            129 => Option::Some(ControlModeRecirculationPump::FlowAdapt),
            130 => Option::Some(ControlModeRecirculationPump::ClosedLoopSensor),
            _ => Option::None,
        }
    }

    /// The variant whose register code is `value`, or `None` when no
    /// variant has that code.
    pub fn from_repr(value: u8) -> (variant: Option<ControlModeRecirculationPump>)
        ensures
            variant == ControlModeRecirculationPump::spec_from_repr(value),
    {
        match value {
            0 => Option::Some(ControlModeRecirculationPump::ConstantSpeed),
            1 => Option::Some(ControlModeRecirculationPump::ConstantFrequency),
            3 => Option::Some(ControlModeRecirculationPump::ConstantHead),
            4 => Option::Some(ControlModeRecirculationPump::ConstantPressure),
            5 => Option::Some(ControlModeRecirculationPump::ConstantDifferentialPressure),
            6 => Option::Some(ControlModeRecirculationPump::ProportionalPressure),
            7 => Option::Some(ControlModeRecirculationPump::ConstantFlow),
            8 => Option::Some(ControlModeRecirculationPump::ConstantTemperature),
            10 => Option::Some(ControlModeRecirculationPump::ConstantLevel),
            128 => Option::Some(ControlModeRecirculationPump::AutoAdapt),
            129 => Option::Some(ControlModeRecirculationPump::FlowAdapt),
            130 => Option::Some(ControlModeRecirculationPump::ClosedLoopSensor),
            _ => Option::None,
        }
    }
}

/// Reading back the register code of a variant gives that variant.
pub proof fn lemma_control_mode_recirculation_pump_value_roundtrip(variant: ControlModeRecirculationPump)
    ensures
        ControlModeRecirculationPump::spec_from_repr(variant.spec_value()) == Option::Some(variant),
{
}

/// A register code that names a variant is that variant's code.
pub proof fn lemma_control_mode_recirculation_pump_code_roundtrip(value: u8)
    ensures
        ControlModeRecirculationPump::spec_from_repr(value) matches Option::Some(found) ==> found.spec_value() == value,
{
}

/// Operation modes of the recirculation pump, by their register code.
#[derive(Debug, Clone, Copy, PartialEq, Eq, Structural)]
pub enum OperationModeRecirculationPump {
    /// Setpoint control according to selected control mode
    AutoControl,
    /// Running at minimum speed
    OpenLoopMin,
    /// Running at maximum speed
    OpenLoopMax,
}

impl OperationModeRecirculationPump {
    /// The register code of this variant.
    pub open spec fn spec_value(self) -> u8 {
        match self {
            OperationModeRecirculationPump::AutoControl => 0,
            OperationModeRecirculationPump::OpenLoopMin => 4,
            OperationModeRecirculationPump::OpenLoopMax => 6,
        }
    }

    /// The register code of this variant.
    pub fn value(&self) -> (value: u8)
        ensures
            value == self.spec_value(),
    {
        match self {
            OperationModeRecirculationPump::AutoControl => 0,
            OperationModeRecirculationPump::OpenLoopMin => 4,
            OperationModeRecirculationPump::OpenLoopMax => 6,
        }
    }

    /// The variant whose register code is `value`, if any.
    pub open spec fn spec_from_repr(value: u8) -> Option<OperationModeRecirculationPump> {
        match value {
            0 => Option::Some(OperationModeRecirculationPump::AutoControl),
            4 => Option::Some(OperationModeRecirculationPump::OpenLoopMin),
            6 => Option::Some(OperationModeRecirculationPump::OpenLoopMax),
            _ => Option::None,
        }
    }

    /// The variant whose register code is `value`, or `None` when no
    /// variant has that code.
    pub fn from_repr(value: u8) -> (variant: Option<OperationModeRecirculationPump>)
        ensures
            variant == OperationModeRecirculationPump::spec_from_repr(value),
    {
        match value {
            0 => Option::Some(OperationModeRecirculationPump::AutoControl),
            4 => Option::Some(OperationModeRecirculationPump::OpenLoopMin),
            6 => Option::Some(OperationModeRecirculationPump::OpenLoopMax),
            _ => Option::None,
        }
    }
}

/// Reading back the register code of a variant gives that variant.
pub proof fn lemma_operation_mode_recirculation_pump_value_roundtrip(variant: OperationModeRecirculationPump)
    ensures
        OperationModeRecirculationPump::spec_from_repr(variant.spec_value()) == Option::Some(variant),
{
}

/// A register code that names a variant is that variant's code.
pub proof fn lemma_operation_mode_recirculation_pump_code_roundtrip(value: u8)
    ensures
        OperationModeRecirculationPump::spec_from_repr(value) matches Option::Some(found) ==> found.spec_value() == value,
{
}

/// Bits of the recirculation pump's status register.
#[derive(Debug, Clone, Copy, PartialEq, Eq, Structural)]
pub enum StatusRecirculationPump {
    Spare0,
    /// Copies remote settings to local settings. 1: Enable, 0: Disable.
    CopyToLocal,
    /// Acknowledgement of ResetAccCounters (volume and energy).
    /// 0: No acknowledgement
    /// 1: Command acknowledged.
    ///
    /// This functionality is only used when AutoAcknowledgeEvents is disabled.
    ResetAccCountersAck,
    /// Indicates if a ResetAlarm command was acknowledged by the device.
    /// This bit is set when the module or unit have accepted a ResetAlarm
    /// command, and the programmer can clear the ResetAlarm bit. The CIM/CIU
    /// will automatically clear the ResetAlarmAck bit to 0 when the master
    /// device clears the ResetAlarm bit, and you can attempt a new ResetAlarm
    /// command by raising the ResetAlarm bit again.
    /// 0: No acknowledgement
    /// 1: Command acknowledged.
    ///
    /// This functionality is only used when AutoAcknowledgeEvents is disabled.
    ResetAlarmAck,
    /// Setpoint influence status
    /// 0: No setpoint influence
    /// 1: Setpoint influence active
    SetpointInfluence,
    /// Running at power limit
    /// 0: Not at power limit
    /// 1: At power limit
    AtMaxPower,
    /// Indicates if any pumps are rotating (running) or not.
    /// 0: No rotation
    /// 1: Rotation.
    Rotation,
    Spare7,
    /// Indicates if the booster system is locally or remotely controlled.
    /// 0: Local (a local control source with higher priority controls the
    ///    system)
    /// 1: Remote (controlled by Modbus master).
    AccessMode,
    /// Indicates if the booster system is on or off.
    /// 0: Off (stopped, the green LED on the booster system flashes)
    /// 1: On (started, the green LED on the booster system is on).
    ///
    /// "Started" does not necessarily indicate rotation, for instance in case
    /// of low-flow stop.
    OnOff,
    /// Indicates if there is an alarm or not.
    /// 0: No alarm
    /// 1: Alarm (red LED on the booster system is on).
    Alarm,
    /// Indicates if there is a warning or not.
    /// 0: No warning
    /// 1: Warning (red LED on the booster system is on).
    ///
    /// The system will continue running even if there is a warning.
    Warning,
    Spare12,
    /// Indicates if the system is running at maximum speed.
    /// 0: No
    /// 1: Yes.
    AtMaxSpeed,
    Spare14,
    /// Indicates if the system is running at minimum speed.
    /// 0: No
    /// 1: Yes.
    AtMinSpeed,
}

impl StatusRecirculationPump {
    /// The bit position of this variant.
    pub open spec fn spec_value(self) -> u16 {
        match self {
            StatusRecirculationPump::Spare0 => 0,
            StatusRecirculationPump::CopyToLocal => 1,
            StatusRecirculationPump::ResetAccCountersAck => 2,
            StatusRecirculationPump::ResetAlarmAck => 3,
            StatusRecirculationPump::SetpointInfluence => 4,
            StatusRecirculationPump::AtMaxPower => 5,
            StatusRecirculationPump::Rotation => 6,
            StatusRecirculationPump::Spare7 => 7,
            StatusRecirculationPump::AccessMode => 8,
            StatusRecirculationPump::OnOff => 9,
            StatusRecirculationPump::Alarm => 10,
            StatusRecirculationPump::Warning => 11,
            StatusRecirculationPump::Spare12 => 12,
            StatusRecirculationPump::AtMaxSpeed => 13,
            StatusRecirculationPump::Spare14 => 14,
            StatusRecirculationPump::AtMinSpeed => 15,
        }
    }

    /// The bit position of this variant.
    pub fn value(&self) -> (value: u16)
        ensures
            value == self.spec_value(),
    {
        match self {
            StatusRecirculationPump::Spare0 => 0,
            StatusRecirculationPump::CopyToLocal => 1,
            StatusRecirculationPump::ResetAccCountersAck => 2,
            StatusRecirculationPump::ResetAlarmAck => 3,
            StatusRecirculationPump::SetpointInfluence => 4,
            StatusRecirculationPump::AtMaxPower => 5,
            StatusRecirculationPump::Rotation => 6,
            StatusRecirculationPump::Spare7 => 7,
            StatusRecirculationPump::AccessMode => 8,
            StatusRecirculationPump::OnOff => 9,
            StatusRecirculationPump::Alarm => 10,
            StatusRecirculationPump::Warning => 11,
            StatusRecirculationPump::Spare12 => 12,
            StatusRecirculationPump::AtMaxSpeed => 13,
            StatusRecirculationPump::Spare14 => 14,
            StatusRecirculationPump::AtMinSpeed => 15,
        }
    }

    /// The mask of this variant's bit: 1 shifted left by its position.
    pub open spec fn spec_bit_value(self) -> u16 {
        1u16 << self.spec_value()
    }

    /// The mask of this variant's bit: 1 shifted left by its position.
    pub fn bit_value(&self) -> (mask: u16)
        ensures
            mask == self.spec_bit_value(),
    {
        1u16 << self.value()
    }
}

/// Grundfos alarm and warning codes of the recirculation pump.
#[derive(Debug, Clone, Copy, PartialEq, Eq, Structural)]
pub enum AlarmWarningRecirculationPump {
    NoAlarm,
    LeakageCurrent,
    MissingPhase,
    ExternalFaultSignal,
    TooManyRestarts,
    RegenerativeBraking,
    MainsFault,
    TooManyHardwareShutdowns,
    PwmSwitchingFrequencyReduced,
    PhaseSequenceReversal,
    CommunicationFaultPump,
    /// Motor oil
    WaterInOilFault,
    /// General service information
    TimeForService,
    MoistureAlarmAnalog,
    /// ERP
    ElectronicDcLinkProtectionActivated,
    /// SCADA
    CommunicationFaultMainSystem,
    Other,
    PerformanceRequirementCanNotBeMet,
    /// Trip
    CommandedAlarmStandby,
    /// Dosing pump
    DiaphragmBreak,
    InsulationResistanceLow,
    TooManyStartsPerHour,
    MoistureSwitchAlarmDigital,
    SmartTrimGapAlarm,
    Vibration,
    SetupConflict,
    LoadContinuesEvenIfMotorSwitchedOff,
    ExternalMotorProtectorActivated,
    BatteryLow,
    /// Impellers forced backwards
    TurbineOperation,
    /// Specific service information
    ChangeBearings,
    /// Specific service information
    ChangeVaristors,
    Overvoltage,
    /// Specific service information
    SoonTimeForService,
    NoPrimingWater,
    GasInPumpHeadDeaeratingProblem,
    OutletValveLeakage,
    InletValveLeakage,
    VentValveDefective,
    ValveStuckOrDefective,
    Undervoltage,
    UndervoltageTransient,
    /// dV/dt
    CutInFault,
    Spare43,
    Spare44,
    VoltageAsymmetry,
    Spare46,
    Spare47,
    Overload,
    /// i_line, i_dc, i_mo
    Overcurrent,
    MotorProtectionFunctionGeneralShutdown,
    BlockedMotorOrPump,
    MotorSlipHigh,
    StalledMotor,
    /// 3 sec limit
    MotorProtectionFunction,
    MotorCurrentProtectionActivated,
    Underload,
    DryRunning,
    LowFlow,
    NoFlow,
    LowInputPower,
    Spare61,
    Spare62,
    Spare63,
    Spare64,
    /// t_m or t_mo or t_mo1
    MotorTemperature1,
    /// t_e
    TemperatureControlElectronics,
    /// t_m
    TemperatureTooHighInternalFrequencyConverterModule,
    /// t_w
    ExternalTemperatureOrWaterTemperature,
    /// For example, Klixon.
    ThermalRelay1InMotor,
    /// For example, thermistor.
    ThermalRelay2InMotor,
    /// Pt100, t_mo2
    MotorTemperature2,
    HardwareFaultType1,
    HardwareShutdown,
    InternalSupplyVoltageTooHigh,
    InternalSupplyVoltageTooLow,
    InternalCommunicationFault,
    CommunicationFaultTwinHeadPump,
    FaultSpeedPlug,
    FunctionalFaultAddonModule,
    HardwareFaultType2,
    /// RAM
    VerificationErrorDataArea,
    /// ROM, FLASH
    VerificationErrorCodeArea,
    /// EEPROM
    VerificationErrorFeParameterArea,
    MemoryAccessError,
    /// EEPROM
    VerificationErrorBeParameterArea,
    /// Fault (add-on) I/O module
    FaultIoModule,
    Spare87,
    SensorFault,
    SignalFaultFeedbackSensor1,
    SignalFaultSpeedSensor,
    SignalFaultTemperatureSensor1,
    CalibrationFaultFeedbackSensor,
    SignalFaultSensor2,
    LimitExceededSensor1,
    LimitExceededSensor2,
    SetpointSignalOutsideRange,
    SignalFaultSetpointInput,
    SignalFaultSetpointInfluence,
    SignalFaultAnalogSetpoint,
    RtcTimeSynchronisationWithCellularNetworkOccurred,
    Spare101,
    DosingPumpNotReady,
    EmergencyStop,
    SoftwareShutdown,
    /// ERP
    ElectronicRectifierProtectionActivated,
    /// EIP
    ElectronicInverterProtectionActivated,
    Spare107,
    Spare108,
    Spare109,
    SkewLoadElectricalAsymmetry,
    CurrentAsymmetry,
    CosPhiTooHigh,
    CosPhiTooLow,
    /// Frost protection
    MotorHeaterFunctionActivated,
    /// Too many grinder reversals or grinder reversal attempt failed
    GrinderReversalAttemptFailed,
    GrinderMotorOvertemperature,
    IntrusionDoorOpened,
    SignalFaultHydrogenSulfideH2SSensor,
    SignalFaultAnalogInputAI4,
    /// Single phase motors
    AuxiliaryWindingFault,
    /// Single phase motors
    AuxiliaryWindingCurrentTooHigh,
    /// Single phase motors
    AuxiliaryWindingCurrentTooLow,
    /// Single phase motors
    StartCapacitorLow,
    /// Single phase motors
    RunCapacitorLow,
    SignalFaultOutdoorTemperatureSensor,
    SignalFaultAirTemperatureSensor,
    SignalFaultShuntRelativePressureSensor,
    StrainerClogged,
    Spare129,
    Spare130,
    Spare131,
    Spare132,
    Spare133,
    Spare134,
    Spare135,
    Spare136,
    Spare137,
    Spare138,
    Spare139,
    Spare140,
    Spare141,
    Spare142,
    Spare143,
    /// Pt100, t_mo3
    MotorTemperature3,
    /// Pt100
    BearingTemperatureHighGeneralOrTopBearing,
    /// Pt100
    BearingTemperatureHighMiddleBearing,
    /// Pt100
    BearingTemperatureHighBottomBearing,
    /// Pt100
    MotorTemperatureHighDriveEnd,
    /// Pt100
    MotorTemperatureHighNonDriveEnd,
    /// Fault (add-on) pump module
    FaultPumpModule,
    FaultDisplayHmi,
    CommunicationFaultAddonModule,
    FaultAnalogOutput,
    CommunicationFaultDisplay,
    InrushFault,
    CommunicationFaultInternalFrequencyConverterModule,
    RealTimeClockOutOfOrder,
    HardwareCircuitMeasurementFault,
    CommunicationInterfaceModuleFault,
    CellularModemSimCardFault,
    SensorSupplyFault5V,
    SensorSupplyFault24V,
    MeasurementFaultMotorProtection,
    SignalFaultLiqTecSensor,
    SignalFaultAnalogInput1,
    SignalFaultAnalogInput2,
    SignalFaultAnalogInput3,
    SignalFaultPressureSensor,
    SignalFaultFlowSensor,
    SignalFaultWaterInOilSensor,
    SignalFaultMoistureSensor,
    SignalFaultAtmosphericPressureSensor,
    /// Hall sensor
    SignalFaultRotorPositionSensor,
    SignalFaultRotorOriginSensor,
    /// t_mo2
    SignalFaultTemperatureSensor2,
    /// t_mo3
    SignalFaultTemperatureSensor3,
    SignalFaultSmartTrimGapSensor,
    SignalFaultVibrationSensor,
    /// Pt100
    SignalFaultBearingTemperatureSensorGeneralOrTopBearing,
    /// Pt100
    SignalFaultBearingTemperatureSensorMiddleBearing,
    /// PTC sensor (short-circuited)
    SignalFaultPtcSensor,
    /// Pt100
    SignalFaultBearingTemperatureSensorBottomBearing,
    SignalFaultExtraTemperatureSensor,
    SignalFaultGeneralPurposeSensor,
    UnknownSensorType,
    SignalFaultPowerMeterSensor,
    SignalFaultEnergyMeter,
    SignalFaultUserDefinedSensor,
    SignalFaultLevelSensor,
    /// For example, alarm level in WW application
    LimitExceededSensor1InApplication,
    /// For example, high level in WW application
    LimitExceededSensor2InApplication,
    /// For example, overflow level in WW application
    LimitExceededSensor3InApplication,
    /// For example, low level in WW/tank filling application
    LimitExceededSensor4InApplication,
    LimitExceededSensor5InApplication,
    LimitExceededSensor6InApplication,
    OperationWithReducedEfficiency,
    OperationWithReducedPressure,
    OperationWithIncreasedPowerConsumption,
    /// Monitoring, estimation, calculation, control
    ProcessOutOfRange,
    ApplicationAlarm,
    ExternalSensorInputHigh,
    ExternalSensorInputLow,
    AlarmOnAllPumps,
    InconsistencyBetweenSensors,
    LevelFloatSwitchSequenceInconsistency,
    WaterShortageLevel1,
    WaterLeakage,
    Cavitation,
    NonReturnValveFault,
    HighPressure,
    LowPressure,
    DiaphragmTankPrechargePressureOutOfRange,
    /// VFD: variable frequency drive
    VfdNotReady,
    WaterShortageLevel2,
    SoftPressureBuildupTimeout,
    PilotPumpAlarm,
    AlarmGeneralPurposeSensorHigh,
    AlarmGeneralPurposeSensorLow,
    PressureReliefNotAdequate,
    FaultMotorContactorFeedback,
    FaultMixerContactorFeedback,
    TimeForServiceMixer,
    TimeForServiceMixerDuplicate,
    PumpFaultDueToAuxiliaryComponentOrGeneralFault,
    CommunicationFaultPumpModule,
    CommunicationFaultIoModule,
    CombiEvent,
    NightFlowMaxLimitExceeded,
    WaterOnFloor,
    NetworkAlarm,
    EthernetNoIpAddressFromDhcpServer,
    EthernetAutoDisabledDueToMisuse,
    EthernetIpAddressConflict,
    BackupPumpAlarm,
    GasDetected,
    Pump1Fault,
    Pump2Fault,
    Pump3Fault,
    Pump4Fault,
    /// Specific service information
    LubricateBearings,
    MotorPhaseFailure,
    AutomaticMotorModelRecognitionFailed,
    /// Manually operated or commanded
    MotorRelayHasBeenForced,
    /// Fault, On/Off/Auto switch
    FaultOnOffAutoSwitch,
    PumpContinuousRuntimeTooLong,
    /// Manually operated or commanded
    UserDefinedRelayHasBeenForced,
    /// Device or system has been switched off
    PowerOnNotice,
    FaultBatteryUps,
    UserDefinedEvent1,
    UserDefinedEvent2,
    UserDefinedEvent3,
    UserDefinedEvent4,
    /// DDD: Demand Driven Distribution. A Grundfos system for municipal water
    /// supply.
    SmsDataFromDddSensorNotReceivedWithinTimeLimit,
    InconsistentDataModel,
    Spare255,
}

impl AlarmWarningRecirculationPump {
    /// The register code of this variant.
    pub open spec fn spec_value(self) -> u8 {
        match self {
            AlarmWarningRecirculationPump::NoAlarm => 0,
            AlarmWarningRecirculationPump::LeakageCurrent => 1,
            AlarmWarningRecirculationPump::MissingPhase => 2,
            AlarmWarningRecirculationPump::ExternalFaultSignal => 3,
            AlarmWarningRecirculationPump::TooManyRestarts => 4,
            AlarmWarningRecirculationPump::RegenerativeBraking => 5,
            AlarmWarningRecirculationPump::MainsFault => 6,
            AlarmWarningRecirculationPump::TooManyHardwareShutdowns => 7,
            AlarmWarningRecirculationPump::PwmSwitchingFrequencyReduced => 8,
            AlarmWarningRecirculationPump::PhaseSequenceReversal => 9,
            AlarmWarningRecirculationPump::CommunicationFaultPump => 10,
            AlarmWarningRecirculationPump::WaterInOilFault => 11,
            AlarmWarningRecirculationPump::TimeForService => 12,
            AlarmWarningRecirculationPump::MoistureAlarmAnalog => 13,
            AlarmWarningRecirculationPump::ElectronicDcLinkProtectionActivated => 14,
            AlarmWarningRecirculationPump::CommunicationFaultMainSystem => 15,
            AlarmWarningRecirculationPump::Other => 16,
            AlarmWarningRecirculationPump::PerformanceRequirementCanNotBeMet => 17,
            AlarmWarningRecirculationPump::CommandedAlarmStandby => 18,
            AlarmWarningRecirculationPump::DiaphragmBreak => 19,
            AlarmWarningRecirculationPump::InsulationResistanceLow => 20,
            AlarmWarningRecirculationPump::TooManyStartsPerHour => 21,
            AlarmWarningRecirculationPump::MoistureSwitchAlarmDigital => 22,
            AlarmWarningRecirculationPump::SmartTrimGapAlarm => 23,
            AlarmWarningRecirculationPump::Vibration => 24,
            AlarmWarningRecirculationPump::SetupConflict => 25,
            AlarmWarningRecirculationPump::LoadContinuesEvenIfMotorSwitchedOff => 26,
            AlarmWarningRecirculationPump::ExternalMotorProtectorActivated => 27,
            AlarmWarningRecirculationPump::BatteryLow => 28,
            AlarmWarningRecirculationPump::TurbineOperation => 29,
            AlarmWarningRecirculationPump::ChangeBearings => 30,
            AlarmWarningRecirculationPump::ChangeVaristors => 31,
            AlarmWarningRecirculationPump::Overvoltage => 32,
            AlarmWarningRecirculationPump::SoonTimeForService => 33,
            AlarmWarningRecirculationPump::NoPrimingWater => 34,
            AlarmWarningRecirculationPump::GasInPumpHeadDeaeratingProblem => 35,
            AlarmWarningRecirculationPump::OutletValveLeakage => 36,
            AlarmWarningRecirculationPump::InletValveLeakage => 37,
            AlarmWarningRecirculationPump::VentValveDefective => 38,
            AlarmWarningRecirculationPump::ValveStuckOrDefective => 39,
            AlarmWarningRecirculationPump::Undervoltage => 40,
            AlarmWarningRecirculationPump::UndervoltageTransient => 41,
            AlarmWarningRecirculationPump::CutInFault => 42,
            AlarmWarningRecirculationPump::Spare43 => 43,
            AlarmWarningRecirculationPump::Spare44 => 44,
            AlarmWarningRecirculationPump::VoltageAsymmetry => 45,
            AlarmWarningRecirculationPump::Spare46 => 46,
            AlarmWarningRecirculationPump::Spare47 => 47,
            AlarmWarningRecirculationPump::Overload => 48,
            AlarmWarningRecirculationPump::Overcurrent => 49,
            AlarmWarningRecirculationPump::MotorProtectionFunctionGeneralShutdown => 50,
            AlarmWarningRecirculationPump::BlockedMotorOrPump => 51,
            AlarmWarningRecirculationPump::MotorSlipHigh => 52,
            AlarmWarningRecirculationPump::StalledMotor => 53,
            AlarmWarningRecirculationPump::MotorProtectionFunction => 54,
            AlarmWarningRecirculationPump::MotorCurrentProtectionActivated => 55,
            AlarmWarningRecirculationPump::Underload => 56,
            AlarmWarningRecirculationPump::DryRunning => 57,
            AlarmWarningRecirculationPump::LowFlow => 58,
            AlarmWarningRecirculationPump::NoFlow => 59,
            AlarmWarningRecirculationPump::LowInputPower => 60,
            AlarmWarningRecirculationPump::Spare61 => 61,
            AlarmWarningRecirculationPump::Spare62 => 62,
            AlarmWarningRecirculationPump::Spare63 => 63,
            AlarmWarningRecirculationPump::Spare64 => 64,
            AlarmWarningRecirculationPump::MotorTemperature1 => 65,
            AlarmWarningRecirculationPump::TemperatureControlElectronics => 66,
            AlarmWarningRecirculationPump::TemperatureTooHighInternalFrequencyConverterModule => 67,
            AlarmWarningRecirculationPump::ExternalTemperatureOrWaterTemperature => 68,
            AlarmWarningRecirculationPump::ThermalRelay1InMotor => 69,
            AlarmWarningRecirculationPump::ThermalRelay2InMotor => 70,
            AlarmWarningRecirculationPump::MotorTemperature2 => 71,
            AlarmWarningRecirculationPump::HardwareFaultType1 => 72,
            AlarmWarningRecirculationPump::HardwareShutdown => 73,
            AlarmWarningRecirculationPump::InternalSupplyVoltageTooHigh => 74,
            AlarmWarningRecirculationPump::InternalSupplyVoltageTooLow => 75,
            AlarmWarningRecirculationPump::InternalCommunicationFault => 76,
            AlarmWarningRecirculationPump::CommunicationFaultTwinHeadPump => 77,
            AlarmWarningRecirculationPump::FaultSpeedPlug => 78,
            AlarmWarningRecirculationPump::FunctionalFaultAddonModule => 79,
            AlarmWarningRecirculationPump::HardwareFaultType2 => 80,
            AlarmWarningRecirculationPump::VerificationErrorDataArea => 81,
            AlarmWarningRecirculationPump::VerificationErrorCodeArea => 82,
            AlarmWarningRecirculationPump::VerificationErrorFeParameterArea => 83,
            AlarmWarningRecirculationPump::MemoryAccessError => 84,
            AlarmWarningRecirculationPump::VerificationErrorBeParameterArea => 85,
            AlarmWarningRecirculationPump::FaultIoModule => 86,
            AlarmWarningRecirculationPump::Spare87 => 87,
            AlarmWarningRecirculationPump::SensorFault => 88,
            AlarmWarningRecirculationPump::SignalFaultFeedbackSensor1 => 89,
            AlarmWarningRecirculationPump::SignalFaultSpeedSensor => 90,
            AlarmWarningRecirculationPump::SignalFaultTemperatureSensor1 => 91,
            AlarmWarningRecirculationPump::CalibrationFaultFeedbackSensor => 92,
            AlarmWarningRecirculationPump::SignalFaultSensor2 => 93,
            AlarmWarningRecirculationPump::LimitExceededSensor1 => 94,
            AlarmWarningRecirculationPump::LimitExceededSensor2 => 95,
            AlarmWarningRecirculationPump::SetpointSignalOutsideRange => 96,
            AlarmWarningRecirculationPump::SignalFaultSetpointInput => 97,
            AlarmWarningRecirculationPump::SignalFaultSetpointInfluence => 98,
            AlarmWarningRecirculationPump::SignalFaultAnalogSetpoint => 99,
            AlarmWarningRecirculationPump::RtcTimeSynchronisationWithCellularNetworkOccurred => 100,
            AlarmWarningRecirculationPump::Spare101 => 101,
            AlarmWarningRecirculationPump::DosingPumpNotReady => 102,
            AlarmWarningRecirculationPump::EmergencyStop => 103,
            AlarmWarningRecirculationPump::SoftwareShutdown => 104,
            AlarmWarningRecirculationPump::ElectronicRectifierProtectionActivated => 105,
            AlarmWarningRecirculationPump::ElectronicInverterProtectionActivated => 106,
            AlarmWarningRecirculationPump::Spare107 => 107,
            AlarmWarningRecirculationPump::Spare108 => 108,
            AlarmWarningRecirculationPump::Spare109 => 109,
            AlarmWarningRecirculationPump::SkewLoadElectricalAsymmetry => 110,
            AlarmWarningRecirculationPump::CurrentAsymmetry => 111,
            AlarmWarningRecirculationPump::CosPhiTooHigh => 112,
            AlarmWarningRecirculationPump::CosPhiTooLow => 113,
            AlarmWarningRecirculationPump::MotorHeaterFunctionActivated => 114,
            AlarmWarningRecirculationPump::GrinderReversalAttemptFailed => 115,
            AlarmWarningRecirculationPump::GrinderMotorOvertemperature => 116,
            AlarmWarningRecirculationPump::IntrusionDoorOpened => 117,
            AlarmWarningRecirculationPump::SignalFaultHydrogenSulfideH2SSensor => 118,
            AlarmWarningRecirculationPump::SignalFaultAnalogInputAI4 => 119,
            AlarmWarningRecirculationPump::AuxiliaryWindingFault => 120,
            AlarmWarningRecirculationPump::AuxiliaryWindingCurrentTooHigh => 121,
            AlarmWarningRecirculationPump::AuxiliaryWindingCurrentTooLow => 122,
            AlarmWarningRecirculationPump::StartCapacitorLow => 123,
            AlarmWarningRecirculationPump::RunCapacitorLow => 124,
            AlarmWarningRecirculationPump::SignalFaultOutdoorTemperatureSensor => 125,
            AlarmWarningRecirculationPump::SignalFaultAirTemperatureSensor => 126,
            AlarmWarningRecirculationPump::SignalFaultShuntRelativePressureSensor => 127,
            AlarmWarningRecirculationPump::StrainerClogged => 128,
            AlarmWarningRecirculationPump::Spare129 => 129,
            AlarmWarningRecirculationPump::Spare130 => 130,
            AlarmWarningRecirculationPump::Spare131 => 131,
            AlarmWarningRecirculationPump::Spare132 => 132,
            AlarmWarningRecirculationPump::Spare133 => 133,
            AlarmWarningRecirculationPump::Spare134 => 134,
            AlarmWarningRecirculationPump::Spare135 => 135,
            AlarmWarningRecirculationPump::Spare136 => 136,
            AlarmWarningRecirculationPump::Spare137 => 137,
            AlarmWarningRecirculationPump::Spare138 => 138,
            AlarmWarningRecirculationPump::Spare139 => 139,
            AlarmWarningRecirculationPump::Spare140 => 140,
            AlarmWarningRecirculationPump::Spare141 => 141,
            AlarmWarningRecirculationPump::Spare142 => 142,
            AlarmWarningRecirculationPump::Spare143 => 143,
            AlarmWarningRecirculationPump::MotorTemperature3 => 144,
            AlarmWarningRecirculationPump::BearingTemperatureHighGeneralOrTopBearing => 145,
            AlarmWarningRecirculationPump::BearingTemperatureHighMiddleBearing => 146,
            AlarmWarningRecirculationPump::BearingTemperatureHighBottomBearing => 147,
            AlarmWarningRecirculationPump::MotorTemperatureHighDriveEnd => 148,
            AlarmWarningRecirculationPump::MotorTemperatureHighNonDriveEnd => 149,
            AlarmWarningRecirculationPump::FaultPumpModule => 150,
            AlarmWarningRecirculationPump::FaultDisplayHmi => 151,
            AlarmWarningRecirculationPump::CommunicationFaultAddonModule => 152,
            AlarmWarningRecirculationPump::FaultAnalogOutput => 153,
            AlarmWarningRecirculationPump::CommunicationFaultDisplay => 154,
            AlarmWarningRecirculationPump::InrushFault => 155,
            AlarmWarningRecirculationPump::CommunicationFaultInternalFrequencyConverterModule => 156,
            AlarmWarningRecirculationPump::RealTimeClockOutOfOrder => 157,
            AlarmWarningRecirculationPump::HardwareCircuitMeasurementFault => 158,
            AlarmWarningRecirculationPump::CommunicationInterfaceModuleFault => 159,
            AlarmWarningRecirculationPump::CellularModemSimCardFault => 160,
            AlarmWarningRecirculationPump::SensorSupplyFault5V => 161,
            AlarmWarningRecirculationPump::SensorSupplyFault24V => 162,
            AlarmWarningRecirculationPump::MeasurementFaultMotorProtection => 163,
            AlarmWarningRecirculationPump::SignalFaultLiqTecSensor => 164,
            AlarmWarningRecirculationPump::SignalFaultAnalogInput1 => 165,
            AlarmWarningRecirculationPump::SignalFaultAnalogInput2 => 166,
            AlarmWarningRecirculationPump::SignalFaultAnalogInput3 => 167,
            AlarmWarningRecirculationPump::SignalFaultPressureSensor => 168,
            AlarmWarningRecirculationPump::SignalFaultFlowSensor => 169,
            AlarmWarningRecirculationPump::SignalFaultWaterInOilSensor => 170,
            AlarmWarningRecirculationPump::SignalFaultMoistureSensor => 171,
            AlarmWarningRecirculationPump::SignalFaultAtmosphericPressureSensor => 172,
            AlarmWarningRecirculationPump::SignalFaultRotorPositionSensor => 173,
            AlarmWarningRecirculationPump::SignalFaultRotorOriginSensor => 174,
            AlarmWarningRecirculationPump::SignalFaultTemperatureSensor2 => 175,
            AlarmWarningRecirculationPump::SignalFaultTemperatureSensor3 => 176,
            AlarmWarningRecirculationPump::SignalFaultSmartTrimGapSensor => 177,
            AlarmWarningRecirculationPump::SignalFaultVibrationSensor => 178,
            AlarmWarningRecirculationPump::SignalFaultBearingTemperatureSensorGeneralOrTopBearing => 179,
            AlarmWarningRecirculationPump::SignalFaultBearingTemperatureSensorMiddleBearing => 180,
            AlarmWarningRecirculationPump::SignalFaultPtcSensor => 181,
            AlarmWarningRecirculationPump::SignalFaultBearingTemperatureSensorBottomBearing => 182,
            AlarmWarningRecirculationPump::SignalFaultExtraTemperatureSensor => 183,
            AlarmWarningRecirculationPump::SignalFaultGeneralPurposeSensor => 184,
            AlarmWarningRecirculationPump::UnknownSensorType => 185,
            AlarmWarningRecirculationPump::SignalFaultPowerMeterSensor => 186,
            AlarmWarningRecirculationPump::SignalFaultEnergyMeter => 187,
            AlarmWarningRecirculationPump::SignalFaultUserDefinedSensor => 188,
            AlarmWarningRecirculationPump::SignalFaultLevelSensor => 189,
            AlarmWarningRecirculationPump::LimitExceededSensor1InApplication => 190,
            AlarmWarningRecirculationPump::LimitExceededSensor2InApplication => 191,
            AlarmWarningRecirculationPump::LimitExceededSensor3InApplication => 192,
            AlarmWarningRecirculationPump::LimitExceededSensor4InApplication => 193,
            AlarmWarningRecirculationPump::LimitExceededSensor5InApplication => 194,
            AlarmWarningRecirculationPump::LimitExceededSensor6InApplication => 195,
            AlarmWarningRecirculationPump::OperationWithReducedEfficiency => 196,
            AlarmWarningRecirculationPump::OperationWithReducedPressure => 197,
            AlarmWarningRecirculationPump::OperationWithIncreasedPowerConsumption => 198,
            AlarmWarningRecirculationPump::ProcessOutOfRange => 199,
            AlarmWarningRecirculationPump::ApplicationAlarm => 200,
            AlarmWarningRecirculationPump::ExternalSensorInputHigh => 201,
            AlarmWarningRecirculationPump::ExternalSensorInputLow => 202,
            AlarmWarningRecirculationPump::AlarmOnAllPumps => 203,
            AlarmWarningRecirculationPump::InconsistencyBetweenSensors => 204,
            AlarmWarningRecirculationPump::LevelFloatSwitchSequenceInconsistency => 205,
            AlarmWarningRecirculationPump::WaterShortageLevel1 => 206,
            AlarmWarningRecirculationPump::WaterLeakage => 207,
            AlarmWarningRecirculationPump::Cavitation => 208,
            AlarmWarningRecirculationPump::NonReturnValveFault => 209,
            AlarmWarningRecirculationPump::HighPressure => 210,
            AlarmWarningRecirculationPump::LowPressure => 211,
            AlarmWarningRecirculationPump::DiaphragmTankPrechargePressureOutOfRange => 212,
            AlarmWarningRecirculationPump::VfdNotReady => 213,
            AlarmWarningRecirculationPump::WaterShortageLevel2 => 214,
            AlarmWarningRecirculationPump::SoftPressureBuildupTimeout => 215,
            AlarmWarningRecirculationPump::PilotPumpAlarm => 216,
            AlarmWarningRecirculationPump::AlarmGeneralPurposeSensorHigh => 217,
            AlarmWarningRecirculationPump::AlarmGeneralPurposeSensorLow => 218,
            AlarmWarningRecirculationPump::PressureReliefNotAdequate => 219,
            AlarmWarningRecirculationPump::FaultMotorContactorFeedback => 220,
            AlarmWarningRecirculationPump::FaultMixerContactorFeedback => 221,
            AlarmWarningRecirculationPump::TimeForServiceMixer => 222,
            AlarmWarningRecirculationPump::TimeForServiceMixerDuplicate => 223,
            AlarmWarningRecirculationPump::PumpFaultDueToAuxiliaryComponentOrGeneralFault => 224,
            AlarmWarningRecirculationPump::CommunicationFaultPumpModule => 225,
            AlarmWarningRecirculationPump::CommunicationFaultIoModule => 226,
            AlarmWarningRecirculationPump::CombiEvent => 227,
            AlarmWarningRecirculationPump::NightFlowMaxLimitExceeded => 228,
            AlarmWarningRecirculationPump::WaterOnFloor => 229,
            AlarmWarningRecirculationPump::NetworkAlarm => 230,
            AlarmWarningRecirculationPump::EthernetNoIpAddressFromDhcpServer => 231,
            AlarmWarningRecirculationPump::EthernetAutoDisabledDueToMisuse => 232,
            AlarmWarningRecirculationPump::EthernetIpAddressConflict => 233,
            AlarmWarningRecirculationPump::BackupPumpAlarm => 234,
            AlarmWarningRecirculationPump::GasDetected => 235,
            AlarmWarningRecirculationPump::Pump1Fault => 236,
            AlarmWarningRecirculationPump::Pump2Fault => 237,
            AlarmWarningRecirculationPump::Pump3Fault => 238,
            AlarmWarningRecirculationPump::Pump4Fault => 239,
            AlarmWarningRecirculationPump::LubricateBearings => 240,
            AlarmWarningRecirculationPump::MotorPhaseFailure => 241,
            AlarmWarningRecirculationPump::AutomaticMotorModelRecognitionFailed => 242,
            AlarmWarningRecirculationPump::MotorRelayHasBeenForced => 243,
            AlarmWarningRecirculationPump::FaultOnOffAutoSwitch => 244,
            AlarmWarningRecirculationPump::PumpContinuousRuntimeTooLong => 245,
            AlarmWarningRecirculationPump::UserDefinedRelayHasBeenForced => 246,
            AlarmWarningRecirculationPump::PowerOnNotice => 247,
            AlarmWarningRecirculationPump::FaultBatteryUps => 248,
            AlarmWarningRecirculationPump::UserDefinedEvent1 => 249,
            AlarmWarningRecirculationPump::UserDefinedEvent2 => 250,
            AlarmWarningRecirculationPump::UserDefinedEvent3 => 251,
            AlarmWarningRecirculationPump::UserDefinedEvent4 => 252,
            AlarmWarningRecirculationPump::SmsDataFromDddSensorNotReceivedWithinTimeLimit => 253,
            AlarmWarningRecirculationPump::InconsistentDataModel => 254,
            AlarmWarningRecirculationPump::Spare255 => 255,
        }
    }

    /// The register code of this variant.
    pub fn value(&self) -> (value: u8)
        ensures
            value == self.spec_value(),
    {
        match self {
            AlarmWarningRecirculationPump::NoAlarm => 0,
            AlarmWarningRecirculationPump::LeakageCurrent => 1,
            AlarmWarningRecirculationPump::MissingPhase => 2,
            AlarmWarningRecirculationPump::ExternalFaultSignal => 3,
            AlarmWarningRecirculationPump::TooManyRestarts => 4,
            AlarmWarningRecirculationPump::RegenerativeBraking => 5,
            AlarmWarningRecirculationPump::MainsFault => 6,
            AlarmWarningRecirculationPump::TooManyHardwareShutdowns => 7,
            AlarmWarningRecirculationPump::PwmSwitchingFrequencyReduced => 8,
            AlarmWarningRecirculationPump::PhaseSequenceReversal => 9,
            AlarmWarningRecirculationPump::CommunicationFaultPump => 10,
            AlarmWarningRecirculationPump::WaterInOilFault => 11,
            AlarmWarningRecirculationPump::TimeForService => 12,
            AlarmWarningRecirculationPump::MoistureAlarmAnalog => 13,
            AlarmWarningRecirculationPump::ElectronicDcLinkProtectionActivated => 14,
            AlarmWarningRecirculationPump::CommunicationFaultMainSystem => 15,
            AlarmWarningRecirculationPump::Other => 16,
            AlarmWarningRecirculationPump::PerformanceRequirementCanNotBeMet => 17,
            AlarmWarningRecirculationPump::CommandedAlarmStandby => 18,
            AlarmWarningRecirculationPump::DiaphragmBreak => 19,
            AlarmWarningRecirculationPump::InsulationResistanceLow => 20,
            AlarmWarningRecirculationPump::TooManyStartsPerHour => 21,
            AlarmWarningRecirculationPump::MoistureSwitchAlarmDigital => 22,
            AlarmWarningRecirculationPump::SmartTrimGapAlarm => 23,
            AlarmWarningRecirculationPump::Vibration => 24,
            AlarmWarningRecirculationPump::SetupConflict => 25,
            AlarmWarningRecirculationPump::LoadContinuesEvenIfMotorSwitchedOff => 26,
            AlarmWarningRecirculationPump::ExternalMotorProtectorActivated => 27,
            AlarmWarningRecirculationPump::BatteryLow => 28,
            AlarmWarningRecirculationPump::TurbineOperation => 29,
            AlarmWarningRecirculationPump::ChangeBearings => 30,
            AlarmWarningRecirculationPump::ChangeVaristors => 31,
            AlarmWarningRecirculationPump::Overvoltage => 32,
            AlarmWarningRecirculationPump::SoonTimeForService => 33,
            AlarmWarningRecirculationPump::NoPrimingWater => 34,
            AlarmWarningRecirculationPump::GasInPumpHeadDeaeratingProblem => 35,
            AlarmWarningRecirculationPump::OutletValveLeakage => 36,
            AlarmWarningRecirculationPump::InletValveLeakage => 37,
            AlarmWarningRecirculationPump::VentValveDefective => 38,
            AlarmWarningRecirculationPump::ValveStuckOrDefective => 39,
            AlarmWarningRecirculationPump::Undervoltage => 40,
            AlarmWarningRecirculationPump::UndervoltageTransient => 41,
            AlarmWarningRecirculationPump::CutInFault => 42,
            AlarmWarningRecirculationPump::Spare43 => 43,
            AlarmWarningRecirculationPump::Spare44 => 44,
            AlarmWarningRecirculationPump::VoltageAsymmetry => 45,
            AlarmWarningRecirculationPump::Spare46 => 46,
            AlarmWarningRecirculationPump::Spare47 => 47,
            AlarmWarningRecirculationPump::Overload => 48,
            AlarmWarningRecirculationPump::Overcurrent => 49,
            AlarmWarningRecirculationPump::MotorProtectionFunctionGeneralShutdown => 50,
            AlarmWarningRecirculationPump::BlockedMotorOrPump => 51,
            AlarmWarningRecirculationPump::MotorSlipHigh => 52,
            AlarmWarningRecirculationPump::StalledMotor => 53,
            AlarmWarningRecirculationPump::MotorProtectionFunction => 54,
            AlarmWarningRecirculationPump::MotorCurrentProtectionActivated => 55,
            AlarmWarningRecirculationPump::Underload => 56,
            AlarmWarningRecirculationPump::DryRunning => 57,
            AlarmWarningRecirculationPump::LowFlow => 58,
            AlarmWarningRecirculationPump::NoFlow => 59,
            AlarmWarningRecirculationPump::LowInputPower => 60,
            AlarmWarningRecirculationPump::Spare61 => 61,
            AlarmWarningRecirculationPump::Spare62 => 62,
            AlarmWarningRecirculationPump::Spare63 => 63,
            AlarmWarningRecirculationPump::Spare64 => 64,
            AlarmWarningRecirculationPump::MotorTemperature1 => 65,
            AlarmWarningRecirculationPump::TemperatureControlElectronics => 66,
            AlarmWarningRecirculationPump::TemperatureTooHighInternalFrequencyConverterModule => 67,
            AlarmWarningRecirculationPump::ExternalTemperatureOrWaterTemperature => 68,
            AlarmWarningRecirculationPump::ThermalRelay1InMotor => 69,
            AlarmWarningRecirculationPump::ThermalRelay2InMotor => 70,
            AlarmWarningRecirculationPump::MotorTemperature2 => 71,
            AlarmWarningRecirculationPump::HardwareFaultType1 => 72,
            AlarmWarningRecirculationPump::HardwareShutdown => 73,
            AlarmWarningRecirculationPump::InternalSupplyVoltageTooHigh => 74,
            AlarmWarningRecirculationPump::InternalSupplyVoltageTooLow => 75,
            AlarmWarningRecirculationPump::InternalCommunicationFault => 76,
            AlarmWarningRecirculationPump::CommunicationFaultTwinHeadPump => 77,
            AlarmWarningRecirculationPump::FaultSpeedPlug => 78,
            AlarmWarningRecirculationPump::FunctionalFaultAddonModule => 79,
            AlarmWarningRecirculationPump::HardwareFaultType2 => 80,
            AlarmWarningRecirculationPump::VerificationErrorDataArea => 81,
            AlarmWarningRecirculationPump::VerificationErrorCodeArea => 82,
            AlarmWarningRecirculationPump::VerificationErrorFeParameterArea => 83,
            AlarmWarningRecirculationPump::MemoryAccessError => 84,
            AlarmWarningRecirculationPump::VerificationErrorBeParameterArea => 85,
            AlarmWarningRecirculationPump::FaultIoModule => 86,
            AlarmWarningRecirculationPump::Spare87 => 87,
            AlarmWarningRecirculationPump::SensorFault => 88,
            AlarmWarningRecirculationPump::SignalFaultFeedbackSensor1 => 89,
            AlarmWarningRecirculationPump::SignalFaultSpeedSensor => 90,
            AlarmWarningRecirculationPump::SignalFaultTemperatureSensor1 => 91,
            AlarmWarningRecirculationPump::CalibrationFaultFeedbackSensor => 92,
            AlarmWarningRecirculationPump::SignalFaultSensor2 => 93,
            AlarmWarningRecirculationPump::LimitExceededSensor1 => 94,
            AlarmWarningRecirculationPump::LimitExceededSensor2 => 95,
            AlarmWarningRecirculationPump::SetpointSignalOutsideRange => 96,
            AlarmWarningRecirculationPump::SignalFaultSetpointInput => 97,
            AlarmWarningRecirculationPump::SignalFaultSetpointInfluence => 98,
            AlarmWarningRecirculationPump::SignalFaultAnalogSetpoint => 99,
            AlarmWarningRecirculationPump::RtcTimeSynchronisationWithCellularNetworkOccurred => 100,
            AlarmWarningRecirculationPump::Spare101 => 101,
            AlarmWarningRecirculationPump::DosingPumpNotReady => 102,
            AlarmWarningRecirculationPump::EmergencyStop => 103,
            AlarmWarningRecirculationPump::SoftwareShutdown => 104,
            AlarmWarningRecirculationPump::ElectronicRectifierProtectionActivated => 105,
            AlarmWarningRecirculationPump::ElectronicInverterProtectionActivated => 106,
            AlarmWarningRecirculationPump::Spare107 => 107,
            AlarmWarningRecirculationPump::Spare108 => 108,
            AlarmWarningRecirculationPump::Spare109 => 109,
            AlarmWarningRecirculationPump::SkewLoadElectricalAsymmetry => 110,
            AlarmWarningRecirculationPump::CurrentAsymmetry => 111,
            AlarmWarningRecirculationPump::CosPhiTooHigh => 112,
            AlarmWarningRecirculationPump::CosPhiTooLow => 113,
            AlarmWarningRecirculationPump::MotorHeaterFunctionActivated => 114,
            AlarmWarningRecirculationPump::GrinderReversalAttemptFailed => 115,
            AlarmWarningRecirculationPump::GrinderMotorOvertemperature => 116,
            AlarmWarningRecirculationPump::IntrusionDoorOpened => 117,
            AlarmWarningRecirculationPump::SignalFaultHydrogenSulfideH2SSensor => 118,
            AlarmWarningRecirculationPump::SignalFaultAnalogInputAI4 => 119,
            AlarmWarningRecirculationPump::AuxiliaryWindingFault => 120,
            AlarmWarningRecirculationPump::AuxiliaryWindingCurrentTooHigh => 121,
            AlarmWarningRecirculationPump::AuxiliaryWindingCurrentTooLow => 122,
            AlarmWarningRecirculationPump::StartCapacitorLow => 123,
            AlarmWarningRecirculationPump::RunCapacitorLow => 124,
            AlarmWarningRecirculationPump::SignalFaultOutdoorTemperatureSensor => 125,
            AlarmWarningRecirculationPump::SignalFaultAirTemperatureSensor => 126,
            AlarmWarningRecirculationPump::SignalFaultShuntRelativePressureSensor => 127,
            AlarmWarningRecirculationPump::StrainerClogged => 128,
            AlarmWarningRecirculationPump::Spare129 => 129,
            AlarmWarningRecirculationPump::Spare130 => 130,
            AlarmWarningRecirculationPump::Spare131 => 131,
            AlarmWarningRecirculationPump::Spare132 => 132,
            AlarmWarningRecirculationPump::Spare133 => 133,
            AlarmWarningRecirculationPump::Spare134 => 134,
            AlarmWarningRecirculationPump::Spare135 => 135,
            AlarmWarningRecirculationPump::Spare136 => 136,
            AlarmWarningRecirculationPump::Spare137 => 137,
            AlarmWarningRecirculationPump::Spare138 => 138,
            AlarmWarningRecirculationPump::Spare139 => 139,
            AlarmWarningRecirculationPump::Spare140 => 140,
            AlarmWarningRecirculationPump::Spare141 => 141,
            AlarmWarningRecirculationPump::Spare142 => 142,
            AlarmWarningRecirculationPump::Spare143 => 143,
            AlarmWarningRecirculationPump::MotorTemperature3 => 144,
            AlarmWarningRecirculationPump::BearingTemperatureHighGeneralOrTopBearing => 145,
            AlarmWarningRecirculationPump::BearingTemperatureHighMiddleBearing => 146,
            AlarmWarningRecirculationPump::BearingTemperatureHighBottomBearing => 147,
            AlarmWarningRecirculationPump::MotorTemperatureHighDriveEnd => 148,
            AlarmWarningRecirculationPump::MotorTemperatureHighNonDriveEnd => 149,
            AlarmWarningRecirculationPump::FaultPumpModule => 150,
            AlarmWarningRecirculationPump::FaultDisplayHmi => 151,
            AlarmWarningRecirculationPump::CommunicationFaultAddonModule => 152,
            AlarmWarningRecirculationPump::FaultAnalogOutput => 153,
            AlarmWarningRecirculationPump::CommunicationFaultDisplay => 154,
            AlarmWarningRecirculationPump::InrushFault => 155,
            AlarmWarningRecirculationPump::CommunicationFaultInternalFrequencyConverterModule => 156,
            AlarmWarningRecirculationPump::RealTimeClockOutOfOrder => 157,
            AlarmWarningRecirculationPump::HardwareCircuitMeasurementFault => 158,
            AlarmWarningRecirculationPump::CommunicationInterfaceModuleFault => 159,
            AlarmWarningRecirculationPump::CellularModemSimCardFault => 160,
            AlarmWarningRecirculationPump::SensorSupplyFault5V => 161,
            AlarmWarningRecirculationPump::SensorSupplyFault24V => 162,
            AlarmWarningRecirculationPump::MeasurementFaultMotorProtection => 163,
            AlarmWarningRecirculationPump::SignalFaultLiqTecSensor => 164,
            AlarmWarningRecirculationPump::SignalFaultAnalogInput1 => 165,
            AlarmWarningRecirculationPump::SignalFaultAnalogInput2 => 166,
            AlarmWarningRecirculationPump::SignalFaultAnalogInput3 => 167,
            AlarmWarningRecirculationPump::SignalFaultPressureSensor => 168,
            AlarmWarningRecirculationPump::SignalFaultFlowSensor => 169,
            AlarmWarningRecirculationPump::SignalFaultWaterInOilSensor => 170,
            AlarmWarningRecirculationPump::SignalFaultMoistureSensor => 171,
            AlarmWarningRecirculationPump::SignalFaultAtmosphericPressureSensor => 172,
            AlarmWarningRecirculationPump::SignalFaultRotorPositionSensor => 173,
            AlarmWarningRecirculationPump::SignalFaultRotorOriginSensor => 174,
            AlarmWarningRecirculationPump::SignalFaultTemperatureSensor2 => 175,
            AlarmWarningRecirculationPump::SignalFaultTemperatureSensor3 => 176,
            AlarmWarningRecirculationPump::SignalFaultSmartTrimGapSensor => 177,
            AlarmWarningRecirculationPump::SignalFaultVibrationSensor => 178,
            AlarmWarningRecirculationPump::SignalFaultBearingTemperatureSensorGeneralOrTopBearing => 179,
            AlarmWarningRecirculationPump::SignalFaultBearingTemperatureSensorMiddleBearing => 180,
            AlarmWarningRecirculationPump::SignalFaultPtcSensor => 181,
            AlarmWarningRecirculationPump::SignalFaultBearingTemperatureSensorBottomBearing => 182,
            AlarmWarningRecirculationPump::SignalFaultExtraTemperatureSensor => 183,
            AlarmWarningRecirculationPump::SignalFaultGeneralPurposeSensor => 184,
            AlarmWarningRecirculationPump::UnknownSensorType => 185,
            AlarmWarningRecirculationPump::SignalFaultPowerMeterSensor => 186,
            AlarmWarningRecirculationPump::SignalFaultEnergyMeter => 187,
            AlarmWarningRecirculationPump::SignalFaultUserDefinedSensor => 188,
            AlarmWarningRecirculationPump::SignalFaultLevelSensor => 189,
            AlarmWarningRecirculationPump::LimitExceededSensor1InApplication => 190,
            AlarmWarningRecirculationPump::LimitExceededSensor2InApplication => 191,
            AlarmWarningRecirculationPump::LimitExceededSensor3InApplication => 192,
            AlarmWarningRecirculationPump::LimitExceededSensor4InApplication => 193,
            AlarmWarningRecirculationPump::LimitExceededSensor5InApplication => 194,
            AlarmWarningRecirculationPump::LimitExceededSensor6InApplication => 195,
            AlarmWarningRecirculationPump::OperationWithReducedEfficiency => 196,
            AlarmWarningRecirculationPump::OperationWithReducedPressure => 197,
            AlarmWarningRecirculationPump::OperationWithIncreasedPowerConsumption => 198,
            AlarmWarningRecirculationPump::ProcessOutOfRange => 199,
            AlarmWarningRecirculationPump::ApplicationAlarm => 200,
            AlarmWarningRecirculationPump::ExternalSensorInputHigh => 201,
            AlarmWarningRecirculationPump::ExternalSensorInputLow => 202,
            AlarmWarningRecirculationPump::AlarmOnAllPumps => 203,
            AlarmWarningRecirculationPump::InconsistencyBetweenSensors => 204,
            AlarmWarningRecirculationPump::LevelFloatSwitchSequenceInconsistency => 205,
            AlarmWarningRecirculationPump::WaterShortageLevel1 => 206,
            AlarmWarningRecirculationPump::WaterLeakage => 207,
            AlarmWarningRecirculationPump::Cavitation => 208,
            AlarmWarningRecirculationPump::NonReturnValveFault => 209,
            AlarmWarningRecirculationPump::HighPressure => 210,
            AlarmWarningRecirculationPump::LowPressure => 211,
            AlarmWarningRecirculationPump::DiaphragmTankPrechargePressureOutOfRange => 212,
            AlarmWarningRecirculationPump::VfdNotReady => 213,
            AlarmWarningRecirculationPump::WaterShortageLevel2 => 214,
            AlarmWarningRecirculationPump::SoftPressureBuildupTimeout => 215,
            AlarmWarningRecirculationPump::PilotPumpAlarm => 216,
            AlarmWarningRecirculationPump::AlarmGeneralPurposeSensorHigh => 217,
            AlarmWarningRecirculationPump::AlarmGeneralPurposeSensorLow => 218,
            AlarmWarningRecirculationPump::PressureReliefNotAdequate => 219,
            AlarmWarningRecirculationPump::FaultMotorContactorFeedback => 220,
            AlarmWarningRecirculationPump::FaultMixerContactorFeedback => 221,
            AlarmWarningRecirculationPump::TimeForServiceMixer => 222,
            AlarmWarningRecirculationPump::TimeForServiceMixerDuplicate => 223,
            AlarmWarningRecirculationPump::PumpFaultDueToAuxiliaryComponentOrGeneralFault => 224,
            AlarmWarningRecirculationPump::CommunicationFaultPumpModule => 225,
            AlarmWarningRecirculationPump::CommunicationFaultIoModule => 226,
            AlarmWarningRecirculationPump::CombiEvent => 227,
            AlarmWarningRecirculationPump::NightFlowMaxLimitExceeded => 228,
            AlarmWarningRecirculationPump::WaterOnFloor => 229,
            AlarmWarningRecirculationPump::NetworkAlarm => 230,
            AlarmWarningRecirculationPump::EthernetNoIpAddressFromDhcpServer => 231,
            AlarmWarningRecirculationPump::EthernetAutoDisabledDueToMisuse => 232,
            AlarmWarningRecirculationPump::EthernetIpAddressConflict => 233,
            AlarmWarningRecirculationPump::BackupPumpAlarm => 234,
            AlarmWarningRecirculationPump::GasDetected => 235,
            AlarmWarningRecirculationPump::Pump1Fault => 236,
            AlarmWarningRecirculationPump::Pump2Fault => 237,
            AlarmWarningRecirculationPump::Pump3Fault => 238,
            AlarmWarningRecirculationPump::Pump4Fault => 239,
            AlarmWarningRecirculationPump::LubricateBearings => 240,
            AlarmWarningRecirculationPump::MotorPhaseFailure => 241,
            AlarmWarningRecirculationPump::AutomaticMotorModelRecognitionFailed => 242,
            AlarmWarningRecirculationPump::MotorRelayHasBeenForced => 243,
            AlarmWarningRecirculationPump::FaultOnOffAutoSwitch => 244,
            AlarmWarningRecirculationPump::PumpContinuousRuntimeTooLong => 245,
            AlarmWarningRecirculationPump::UserDefinedRelayHasBeenForced => 246,
            AlarmWarningRecirculationPump::PowerOnNotice => 247,
            AlarmWarningRecirculationPump::FaultBatteryUps => 248,
            AlarmWarningRecirculationPump::UserDefinedEvent1 => 249,
            AlarmWarningRecirculationPump::UserDefinedEvent2 => 250,
            AlarmWarningRecirculationPump::UserDefinedEvent3 => 251,
            AlarmWarningRecirculationPump::UserDefinedEvent4 => 252,
            AlarmWarningRecirculationPump::SmsDataFromDddSensorNotReceivedWithinTimeLimit => 253,
            AlarmWarningRecirculationPump::InconsistentDataModel => 254,
            AlarmWarningRecirculationPump::Spare255 => 255,
        }
    }

    /// The variant whose register code is `value`, if any.
    pub open spec fn spec_from_repr(value: u8) -> Option<AlarmWarningRecirculationPump> {
        match value {
            0 => Option::Some(AlarmWarningRecirculationPump::NoAlarm),
            1 => Option::Some(AlarmWarningRecirculationPump::LeakageCurrent),
            2 => Option::Some(AlarmWarningRecirculationPump::MissingPhase),
            3 => Option::Some(AlarmWarningRecirculationPump::ExternalFaultSignal),
            4 => Option::Some(AlarmWarningRecirculationPump::TooManyRestarts),
            5 => Option::Some(AlarmWarningRecirculationPump::RegenerativeBraking),
            6 => Option::Some(AlarmWarningRecirculationPump::MainsFault),
            7 => Option::Some(AlarmWarningRecirculationPump::TooManyHardwareShutdowns),
            8 => Option::Some(AlarmWarningRecirculationPump::PwmSwitchingFrequencyReduced),
            9 => Option::Some(AlarmWarningRecirculationPump::PhaseSequenceReversal),
            10 => Option::Some(AlarmWarningRecirculationPump::CommunicationFaultPump),
            11 => Option::Some(AlarmWarningRecirculationPump::WaterInOilFault),
            12 => Option::Some(AlarmWarningRecirculationPump::TimeForService),
            13 => Option::Some(AlarmWarningRecirculationPump::MoistureAlarmAnalog),
            14 => Option::Some(AlarmWarningRecirculationPump::ElectronicDcLinkProtectionActivated),
            15 => Option::Some(AlarmWarningRecirculationPump::CommunicationFaultMainSystem),
            16 => Option::Some(AlarmWarningRecirculationPump::Other),
            17 => Option::Some(AlarmWarningRecirculationPump::PerformanceRequirementCanNotBeMet),
            18 => Option::Some(AlarmWarningRecirculationPump::CommandedAlarmStandby),
            19 => Option::Some(AlarmWarningRecirculationPump::DiaphragmBreak),
            20 => Option::Some(AlarmWarningRecirculationPump::InsulationResistanceLow),
            21 => Option::Some(AlarmWarningRecirculationPump::TooManyStartsPerHour),
            22 => Option::Some(AlarmWarningRecirculationPump::MoistureSwitchAlarmDigital),
            23 => Option::Some(AlarmWarningRecirculationPump::SmartTrimGapAlarm),
            24 => Option::Some(AlarmWarningRecirculationPump::Vibration),
            25 => Option::Some(AlarmWarningRecirculationPump::SetupConflict),
            26 => Option::Some(AlarmWarningRecirculationPump::LoadContinuesEvenIfMotorSwitchedOff),
            27 => Option::Some(AlarmWarningRecirculationPump::ExternalMotorProtectorActivated),
            28 => Option::Some(AlarmWarningRecirculationPump::BatteryLow),
            29 => Option::Some(AlarmWarningRecirculationPump::TurbineOperation),
            30 => Option::Some(AlarmWarningRecirculationPump::ChangeBearings),
            31 => Option::Some(AlarmWarningRecirculationPump::ChangeVaristors),
            32 => Option::Some(AlarmWarningRecirculationPump::Overvoltage),
            33 => Option::Some(AlarmWarningRecirculationPump::SoonTimeForService),
            34 => Option::Some(AlarmWarningRecirculationPump::NoPrimingWater),
            35 => Option::Some(AlarmWarningRecirculationPump::GasInPumpHeadDeaeratingProblem),
            36 => Option::Some(AlarmWarningRecirculationPump::OutletValveLeakage),
            37 => Option::Some(AlarmWarningRecirculationPump::InletValveLeakage),
            38 => Option::Some(AlarmWarningRecirculationPump::VentValveDefective),
            39 => Option::Some(AlarmWarningRecirculationPump::ValveStuckOrDefective),
            40 => Option::Some(AlarmWarningRecirculationPump::Undervoltage),
            41 => Option::Some(AlarmWarningRecirculationPump::UndervoltageTransient),
            42 => Option::Some(AlarmWarningRecirculationPump::CutInFault),
            43 => Option::Some(AlarmWarningRecirculationPump::Spare43),
            44 => Option::Some(AlarmWarningRecirculationPump::Spare44),
            45 => Option::Some(AlarmWarningRecirculationPump::VoltageAsymmetry),
            46 => Option::Some(AlarmWarningRecirculationPump::Spare46),
            47 => Option::Some(AlarmWarningRecirculationPump::Spare47),
            48 => Option::Some(AlarmWarningRecirculationPump::Overload),
            49 => Option::Some(AlarmWarningRecirculationPump::Overcurrent),
            50 => Option::Some(AlarmWarningRecirculationPump::MotorProtectionFunctionGeneralShutdown),
            51 => Option::Some(AlarmWarningRecirculationPump::BlockedMotorOrPump),
            52 => Option::Some(AlarmWarningRecirculationPump::MotorSlipHigh),
            53 => Option::Some(AlarmWarningRecirculationPump::StalledMotor),
            54 => Option::Some(AlarmWarningRecirculationPump::MotorProtectionFunction),
            55 => Option::Some(AlarmWarningRecirculationPump::MotorCurrentProtectionActivated),
            56 => Option::Some(AlarmWarningRecirculationPump::Underload),
            57 => Option::Some(AlarmWarningRecirculationPump::DryRunning),
            58 => Option::Some(AlarmWarningRecirculationPump::LowFlow),
            59 => Option::Some(AlarmWarningRecirculationPump::NoFlow),
            60 => Option::Some(AlarmWarningRecirculationPump::LowInputPower),
            61 => Option::Some(AlarmWarningRecirculationPump::Spare61),
            62 => Option::Some(AlarmWarningRecirculationPump::Spare62),
            63 => Option::Some(AlarmWarningRecirculationPump::Spare63),
            64 => Option::Some(AlarmWarningRecirculationPump::Spare64),
            65 => Option::Some(AlarmWarningRecirculationPump::MotorTemperature1),
            66 => Option::Some(AlarmWarningRecirculationPump::TemperatureControlElectronics),
            67 => Option::Some(AlarmWarningRecirculationPump::TemperatureTooHighInternalFrequencyConverterModule),
            68 => Option::Some(AlarmWarningRecirculationPump::ExternalTemperatureOrWaterTemperature),
            69 => Option::Some(AlarmWarningRecirculationPump::ThermalRelay1InMotor),
            70 => Option::Some(AlarmWarningRecirculationPump::ThermalRelay2InMotor),
            71 => Option::Some(AlarmWarningRecirculationPump::MotorTemperature2),
            72 => Option::Some(AlarmWarningRecirculationPump::HardwareFaultType1),
            73 => Option::Some(AlarmWarningRecirculationPump::HardwareShutdown),
            74 => Option::Some(AlarmWarningRecirculationPump::InternalSupplyVoltageTooHigh),
            75 => Option::Some(AlarmWarningRecirculationPump::InternalSupplyVoltageTooLow),
            76 => Option::Some(AlarmWarningRecirculationPump::InternalCommunicationFault),
            77 => Option::Some(AlarmWarningRecirculationPump::CommunicationFaultTwinHeadPump),
            78 => Option::Some(AlarmWarningRecirculationPump::FaultSpeedPlug),
            79 => Option::Some(AlarmWarningRecirculationPump::FunctionalFaultAddonModule),
            80 => Option::Some(AlarmWarningRecirculationPump::HardwareFaultType2),
            81 => Option::Some(AlarmWarningRecirculationPump::VerificationErrorDataArea),
            82 => Option::Some(AlarmWarningRecirculationPump::VerificationErrorCodeArea),
            83 => Option::Some(AlarmWarningRecirculationPump::VerificationErrorFeParameterArea),
            84 => Option::Some(AlarmWarningRecirculationPump::MemoryAccessError),
            85 => Option::Some(AlarmWarningRecirculationPump::VerificationErrorBeParameterArea),
            86 => Option::Some(AlarmWarningRecirculationPump::FaultIoModule),
            87 => Option::Some(AlarmWarningRecirculationPump::Spare87),
            88 => Option::Some(AlarmWarningRecirculationPump::SensorFault),
            89 => Option::Some(AlarmWarningRecirculationPump::SignalFaultFeedbackSensor1),
            90 => Option::Some(AlarmWarningRecirculationPump::SignalFaultSpeedSensor),
            91 => Option::Some(AlarmWarningRecirculationPump::SignalFaultTemperatureSensor1),
            92 => Option::Some(AlarmWarningRecirculationPump::CalibrationFaultFeedbackSensor),
            93 => Option::Some(AlarmWarningRecirculationPump::SignalFaultSensor2),
            94 => Option::Some(AlarmWarningRecirculationPump::LimitExceededSensor1),
            95 => Option::Some(AlarmWarningRecirculationPump::LimitExceededSensor2),
            96 => Option::Some(AlarmWarningRecirculationPump::SetpointSignalOutsideRange),
            97 => Option::Some(AlarmWarningRecirculationPump::SignalFaultSetpointInput),
            98 => Option::Some(AlarmWarningRecirculationPump::SignalFaultSetpointInfluence),
            99 => Option::Some(AlarmWarningRecirculationPump::SignalFaultAnalogSetpoint),
            100 => Option::Some(AlarmWarningRecirculationPump::RtcTimeSynchronisationWithCellularNetworkOccurred),
            101 => Option::Some(AlarmWarningRecirculationPump::Spare101),
            102 => Option::Some(AlarmWarningRecirculationPump::DosingPumpNotReady),
            103 => Option::Some(AlarmWarningRecirculationPump::EmergencyStop),
            104 => Option::Some(AlarmWarningRecirculationPump::SoftwareShutdown),
            105 => Option::Some(AlarmWarningRecirculationPump::ElectronicRectifierProtectionActivated),
            106 => Option::Some(AlarmWarningRecirculationPump::ElectronicInverterProtectionActivated),
            107 => Option::Some(AlarmWarningRecirculationPump::Spare107),
            108 => Option::Some(AlarmWarningRecirculationPump::Spare108),
            109 => Option::Some(AlarmWarningRecirculationPump::Spare109),
            110 => Option::Some(AlarmWarningRecirculationPump::SkewLoadElectricalAsymmetry),
            111 => Option::Some(AlarmWarningRecirculationPump::CurrentAsymmetry),
            112 => Option::Some(AlarmWarningRecirculationPump::CosPhiTooHigh),
            113 => Option::Some(AlarmWarningRecirculationPump::CosPhiTooLow),
            114 => Option::Some(AlarmWarningRecirculationPump::MotorHeaterFunctionActivated),
            115 => Option::Some(AlarmWarningRecirculationPump::GrinderReversalAttemptFailed),
            116 => Option::Some(AlarmWarningRecirculationPump::GrinderMotorOvertemperature),
            117 => Option::Some(AlarmWarningRecirculationPump::IntrusionDoorOpened),
            118 => Option::Some(AlarmWarningRecirculationPump::SignalFaultHydrogenSulfideH2SSensor),
            119 => Option::Some(AlarmWarningRecirculationPump::SignalFaultAnalogInputAI4),
            120 => Option::Some(AlarmWarningRecirculationPump::AuxiliaryWindingFault),
            121 => Option::Some(AlarmWarningRecirculationPump::AuxiliaryWindingCurrentTooHigh),
            122 => Option::Some(AlarmWarningRecirculationPump::AuxiliaryWindingCurrentTooLow),
            123 => Option::Some(AlarmWarningRecirculationPump::StartCapacitorLow),
            124 => Option::Some(AlarmWarningRecirculationPump::RunCapacitorLow),
            125 => Option::Some(AlarmWarningRecirculationPump::SignalFaultOutdoorTemperatureSensor),
            126 => Option::Some(AlarmWarningRecirculationPump::SignalFaultAirTemperatureSensor),
            127 => Option::Some(AlarmWarningRecirculationPump::SignalFaultShuntRelativePressureSensor),
            128 => Option::Some(AlarmWarningRecirculationPump::StrainerClogged),
            129 => Option::Some(AlarmWarningRecirculationPump::Spare129),
            130 => Option::Some(AlarmWarningRecirculationPump::Spare130),
            131 => Option::Some(AlarmWarningRecirculationPump::Spare131),
            132 => Option::Some(AlarmWarningRecirculationPump::Spare132),
            133 => Option::Some(AlarmWarningRecirculationPump::Spare133),
            134 => Option::Some(AlarmWarningRecirculationPump::Spare134),
            135 => Option::Some(AlarmWarningRecirculationPump::Spare135),
            136 => Option::Some(AlarmWarningRecirculationPump::Spare136),
            137 => Option::Some(AlarmWarningRecirculationPump::Spare137),
            138 => Option::Some(AlarmWarningRecirculationPump::Spare138),
            139 => Option::Some(AlarmWarningRecirculationPump::Spare139),
            140 => Option::Some(AlarmWarningRecirculationPump::Spare140),
            141 => Option::Some(AlarmWarningRecirculationPump::Spare141),
            142 => Option::Some(AlarmWarningRecirculationPump::Spare142),
            143 => Option::Some(AlarmWarningRecirculationPump::Spare143),
            144 => Option::Some(AlarmWarningRecirculationPump::MotorTemperature3),
            145 => Option::Some(AlarmWarningRecirculationPump::BearingTemperatureHighGeneralOrTopBearing),
            146 => Option::Some(AlarmWarningRecirculationPump::BearingTemperatureHighMiddleBearing),
            147 => Option::Some(AlarmWarningRecirculationPump::BearingTemperatureHighBottomBearing),
            148 => Option::Some(AlarmWarningRecirculationPump::MotorTemperatureHighDriveEnd),
            149 => Option::Some(AlarmWarningRecirculationPump::MotorTemperatureHighNonDriveEnd),
            150 => Option::Some(AlarmWarningRecirculationPump::FaultPumpModule),
            151 => Option::Some(AlarmWarningRecirculationPump::FaultDisplayHmi),
            152 => Option::Some(AlarmWarningRecirculationPump::CommunicationFaultAddonModule),
            153 => Option::Some(AlarmWarningRecirculationPump::FaultAnalogOutput),
            154 => Option::Some(AlarmWarningRecirculationPump::CommunicationFaultDisplay),
            155 => Option::Some(AlarmWarningRecirculationPump::InrushFault),
            156 => Option::Some(AlarmWarningRecirculationPump::CommunicationFaultInternalFrequencyConverterModule),
            157 => Option::Some(AlarmWarningRecirculationPump::RealTimeClockOutOfOrder),
            158 => Option::Some(AlarmWarningRecirculationPump::HardwareCircuitMeasurementFault),
            159 => Option::Some(AlarmWarningRecirculationPump::CommunicationInterfaceModuleFault),
            160 => Option::Some(AlarmWarningRecirculationPump::CellularModemSimCardFault),
            161 => Option::Some(AlarmWarningRecirculationPump::SensorSupplyFault5V),
            162 => Option::Some(AlarmWarningRecirculationPump::SensorSupplyFault24V),
            163 => Option::Some(AlarmWarningRecirculationPump::MeasurementFaultMotorProtection),
            164 => Option::Some(AlarmWarningRecirculationPump::SignalFaultLiqTecSensor),
            165 => Option::Some(AlarmWarningRecirculationPump::SignalFaultAnalogInput1),
            166 => Option::Some(AlarmWarningRecirculationPump::SignalFaultAnalogInput2),
            167 => Option::Some(AlarmWarningRecirculationPump::SignalFaultAnalogInput3),
            168 => Option::Some(AlarmWarningRecirculationPump::SignalFaultPressureSensor),
            169 => Option::Some(AlarmWarningRecirculationPump::SignalFaultFlowSensor),
            170 => Option::Some(AlarmWarningRecirculationPump::SignalFaultWaterInOilSensor),
            171 => Option::Some(AlarmWarningRecirculationPump::SignalFaultMoistureSensor),
            172 => Option::Some(AlarmWarningRecirculationPump::SignalFaultAtmosphericPressureSensor),
            173 => Option::Some(AlarmWarningRecirculationPump::SignalFaultRotorPositionSensor),
            174 => Option::Some(AlarmWarningRecirculationPump::SignalFaultRotorOriginSensor),
            175 => Option::Some(AlarmWarningRecirculationPump::SignalFaultTemperatureSensor2),
            176 => Option::Some(AlarmWarningRecirculationPump::SignalFaultTemperatureSensor3),
            177 => Option::Some(AlarmWarningRecirculationPump::SignalFaultSmartTrimGapSensor),
            178 => Option::Some(AlarmWarningRecirculationPump::SignalFaultVibrationSensor),
            179 => Option::Some(AlarmWarningRecirculationPump::SignalFaultBearingTemperatureSensorGeneralOrTopBearing),
            180 => Option::Some(AlarmWarningRecirculationPump::SignalFaultBearingTemperatureSensorMiddleBearing),
            181 => Option::Some(AlarmWarningRecirculationPump::SignalFaultPtcSensor),
            182 => Option::Some(AlarmWarningRecirculationPump::SignalFaultBearingTemperatureSensorBottomBearing),
            183 => Option::Some(AlarmWarningRecirculationPump::SignalFaultExtraTemperatureSensor),
            184 => Option::Some(AlarmWarningRecirculationPump::SignalFaultGeneralPurposeSensor),
            185 => Option::Some(AlarmWarningRecirculationPump::UnknownSensorType),
            186 => Option::Some(AlarmWarningRecirculationPump::SignalFaultPowerMeterSensor),
            187 => Option::Some(AlarmWarningRecirculationPump::SignalFaultEnergyMeter),
            188 => Option::Some(AlarmWarningRecirculationPump::SignalFaultUserDefinedSensor),
            189 => Option::Some(AlarmWarningRecirculationPump::SignalFaultLevelSensor),
            190 => Option::Some(AlarmWarningRecirculationPump::LimitExceededSensor1InApplication),
            191 => Option::Some(AlarmWarningRecirculationPump::LimitExceededSensor2InApplication),
            192 => Option::Some(AlarmWarningRecirculationPump::LimitExceededSensor3InApplication),
            193 => Option::Some(AlarmWarningRecirculationPump::LimitExceededSensor4InApplication),
            194 => Option::Some(AlarmWarningRecirculationPump::LimitExceededSensor5InApplication),
            195 => Option::Some(AlarmWarningRecirculationPump::LimitExceededSensor6InApplication),
            196 => Option::Some(AlarmWarningRecirculationPump::OperationWithReducedEfficiency),
            197 => Option::Some(AlarmWarningRecirculationPump::OperationWithReducedPressure),
            198 => Option::Some(AlarmWarningRecirculationPump::OperationWithIncreasedPowerConsumption),
            199 => Option::Some(AlarmWarningRecirculationPump::ProcessOutOfRange),
            200 => Option::Some(AlarmWarningRecirculationPump::ApplicationAlarm),
            201 => Option::Some(AlarmWarningRecirculationPump::ExternalSensorInputHigh),
            202 => Option::Some(AlarmWarningRecirculationPump::ExternalSensorInputLow),
            203 => Option::Some(AlarmWarningRecirculationPump::AlarmOnAllPumps),
            204 => Option::Some(AlarmWarningRecirculationPump::InconsistencyBetweenSensors),
            205 => Option::Some(AlarmWarningRecirculationPump::LevelFloatSwitchSequenceInconsistency),
            206 => Option::Some(AlarmWarningRecirculationPump::WaterShortageLevel1),
            207 => Option::Some(AlarmWarningRecirculationPump::WaterLeakage),
            208 => Option::Some(AlarmWarningRecirculationPump::Cavitation),
            209 => Option::Some(AlarmWarningRecirculationPump::NonReturnValveFault),
            210 => Option::Some(AlarmWarningRecirculationPump::HighPressure),
            211 => Option::Some(AlarmWarningRecirculationPump::LowPressure),
            212 => Option::Some(AlarmWarningRecirculationPump::DiaphragmTankPrechargePressureOutOfRange),
            213 => Option::Some(AlarmWarningRecirculationPump::VfdNotReady),
            214 => Option::Some(AlarmWarningRecirculationPump::WaterShortageLevel2),
            215 => Option::Some(AlarmWarningRecirculationPump::SoftPressureBuildupTimeout),
            216 => Option::Some(AlarmWarningRecirculationPump::PilotPumpAlarm),
            217 => Option::Some(AlarmWarningRecirculationPump::AlarmGeneralPurposeSensorHigh),
            218 => Option::Some(AlarmWarningRecirculationPump::AlarmGeneralPurposeSensorLow),
            219 => Option::Some(AlarmWarningRecirculationPump::PressureReliefNotAdequate),
            220 => Option::Some(AlarmWarningRecirculationPump::FaultMotorContactorFeedback),
            221 => Option::Some(AlarmWarningRecirculationPump::FaultMixerContactorFeedback),
            222 => Option::Some(AlarmWarningRecirculationPump::TimeForServiceMixer),
            223 => Option::Some(AlarmWarningRecirculationPump::TimeForServiceMixerDuplicate),
            224 => Option::Some(AlarmWarningRecirculationPump::PumpFaultDueToAuxiliaryComponentOrGeneralFault),
            225 => Option::Some(AlarmWarningRecirculationPump::CommunicationFaultPumpModule),
            226 => Option::Some(AlarmWarningRecirculationPump::CommunicationFaultIoModule),
            227 => Option::Some(AlarmWarningRecirculationPump::CombiEvent),
            228 => Option::Some(AlarmWarningRecirculationPump::NightFlowMaxLimitExceeded),
            229 => Option::Some(AlarmWarningRecirculationPump::WaterOnFloor),
            230 => Option::Some(AlarmWarningRecirculationPump::NetworkAlarm),
            231 => Option::Some(AlarmWarningRecirculationPump::EthernetNoIpAddressFromDhcpServer),
            232 => Option::Some(AlarmWarningRecirculationPump::EthernetAutoDisabledDueToMisuse),
            233 => Option::Some(AlarmWarningRecirculationPump::EthernetIpAddressConflict),
            234 => Option::Some(AlarmWarningRecirculationPump::BackupPumpAlarm),
            235 => Option::Some(AlarmWarningRecirculationPump::GasDetected),
            236 => Option::Some(AlarmWarningRecirculationPump::Pump1Fault),
            237 => Option::Some(AlarmWarningRecirculationPump::Pump2Fault),
            238 => Option::Some(AlarmWarningRecirculationPump::Pump3Fault),
            239 => Option::Some(AlarmWarningRecirculationPump::Pump4Fault),
            240 => Option::Some(AlarmWarningRecirculationPump::LubricateBearings),
            241 => Option::Some(AlarmWarningRecirculationPump::MotorPhaseFailure),
            242 => Option::Some(AlarmWarningRecirculationPump::AutomaticMotorModelRecognitionFailed),
            243 => Option::Some(AlarmWarningRecirculationPump::MotorRelayHasBeenForced),
            244 => Option::Some(AlarmWarningRecirculationPump::FaultOnOffAutoSwitch),
            245 => Option::Some(AlarmWarningRecirculationPump::PumpContinuousRuntimeTooLong),
            246 => Option::Some(AlarmWarningRecirculationPump::UserDefinedRelayHasBeenForced),
            247 => Option::Some(AlarmWarningRecirculationPump::PowerOnNotice),
            248 => Option::Some(AlarmWarningRecirculationPump::FaultBatteryUps),
            249 => Option::Some(AlarmWarningRecirculationPump::UserDefinedEvent1),
            250 => Option::Some(AlarmWarningRecirculationPump::UserDefinedEvent2),
            251 => Option::Some(AlarmWarningRecirculationPump::UserDefinedEvent3),
            252 => Option::Some(AlarmWarningRecirculationPump::UserDefinedEvent4),
            253 => Option::Some(AlarmWarningRecirculationPump::SmsDataFromDddSensorNotReceivedWithinTimeLimit),
            254 => Option::Some(AlarmWarningRecirculationPump::InconsistentDataModel),
            255 => Option::Some(AlarmWarningRecirculationPump::Spare255),
        }
    }

    /// The variant whose register code is `value`, or `None` when no
    /// variant has that code.
    pub fn from_repr(value: u8) -> (variant: Option<AlarmWarningRecirculationPump>)
        ensures
            variant == AlarmWarningRecirculationPump::spec_from_repr(value),
    {
        match value {
            0 => Option::Some(AlarmWarningRecirculationPump::NoAlarm),
            1 => Option::Some(AlarmWarningRecirculationPump::LeakageCurrent),
            2 => Option::Some(AlarmWarningRecirculationPump::MissingPhase),
            3 => Option::Some(AlarmWarningRecirculationPump::ExternalFaultSignal),
            4 => Option::Some(AlarmWarningRecirculationPump::TooManyRestarts),
            5 => Option::Some(AlarmWarningRecirculationPump::RegenerativeBraking),
            6 => Option::Some(AlarmWarningRecirculationPump::MainsFault),
            7 => Option::Some(AlarmWarningRecirculationPump::TooManyHardwareShutdowns),
            8 => Option::Some(AlarmWarningRecirculationPump::PwmSwitchingFrequencyReduced),
            9 => Option::Some(AlarmWarningRecirculationPump::PhaseSequenceReversal),
            10 => Option::Some(AlarmWarningRecirculationPump::CommunicationFaultPump),
            11 => Option::Some(AlarmWarningRecirculationPump::WaterInOilFault),
            12 => Option::Some(AlarmWarningRecirculationPump::TimeForService),
            13 => Option::Some(AlarmWarningRecirculationPump::MoistureAlarmAnalog),
            14 => Option::Some(AlarmWarningRecirculationPump::ElectronicDcLinkProtectionActivated),
            15 => Option::Some(AlarmWarningRecirculationPump::CommunicationFaultMainSystem),
            16 => Option::Some(AlarmWarningRecirculationPump::Other),
            17 => Option::Some(AlarmWarningRecirculationPump::PerformanceRequirementCanNotBeMet),
            18 => Option::Some(AlarmWarningRecirculationPump::CommandedAlarmStandby),
            19 => Option::Some(AlarmWarningRecirculationPump::DiaphragmBreak),
            20 => Option::Some(AlarmWarningRecirculationPump::InsulationResistanceLow),
            21 => Option::Some(AlarmWarningRecirculationPump::TooManyStartsPerHour),
            22 => Option::Some(AlarmWarningRecirculationPump::MoistureSwitchAlarmDigital),
            23 => Option::Some(AlarmWarningRecirculationPump::SmartTrimGapAlarm),
            24 => Option::Some(AlarmWarningRecirculationPump::Vibration),
            25 => Option::Some(AlarmWarningRecirculationPump::SetupConflict),
            26 => Option::Some(AlarmWarningRecirculationPump::LoadContinuesEvenIfMotorSwitchedOff),
            27 => Option::Some(AlarmWarningRecirculationPump::ExternalMotorProtectorActivated),
            28 => Option::Some(AlarmWarningRecirculationPump::BatteryLow),
            29 => Option::Some(AlarmWarningRecirculationPump::TurbineOperation),
            30 => Option::Some(AlarmWarningRecirculationPump::ChangeBearings),
            31 => Option::Some(AlarmWarningRecirculationPump::ChangeVaristors),
            32 => Option::Some(AlarmWarningRecirculationPump::Overvoltage),
            33 => Option::Some(AlarmWarningRecirculationPump::SoonTimeForService),
            34 => Option::Some(AlarmWarningRecirculationPump::NoPrimingWater),
            35 => Option::Some(AlarmWarningRecirculationPump::GasInPumpHeadDeaeratingProblem),
            36 => Option::Some(AlarmWarningRecirculationPump::OutletValveLeakage),
            37 => Option::Some(AlarmWarningRecirculationPump::InletValveLeakage),
            38 => Option::Some(AlarmWarningRecirculationPump::VentValveDefective),
            39 => Option::Some(AlarmWarningRecirculationPump::ValveStuckOrDefective),
            40 => Option::Some(AlarmWarningRecirculationPump::Undervoltage),
            41 => Option::Some(AlarmWarningRecirculationPump::UndervoltageTransient),
            42 => Option::Some(AlarmWarningRecirculationPump::CutInFault),
            43 => Option::Some(AlarmWarningRecirculationPump::Spare43),
            44 => Option::Some(AlarmWarningRecirculationPump::Spare44),
            45 => Option::Some(AlarmWarningRecirculationPump::VoltageAsymmetry),
            46 => Option::Some(AlarmWarningRecirculationPump::Spare46),
            47 => Option::Some(AlarmWarningRecirculationPump::Spare47),
            48 => Option::Some(AlarmWarningRecirculationPump::Overload),
            49 => Option::Some(AlarmWarningRecirculationPump::Overcurrent),
            50 => Option::Some(AlarmWarningRecirculationPump::MotorProtectionFunctionGeneralShutdown),
            51 => Option::Some(AlarmWarningRecirculationPump::BlockedMotorOrPump),
            52 => Option::Some(AlarmWarningRecirculationPump::MotorSlipHigh),
            53 => Option::Some(AlarmWarningRecirculationPump::StalledMotor),
            54 => Option::Some(AlarmWarningRecirculationPump::MotorProtectionFunction),
            55 => Option::Some(AlarmWarningRecirculationPump::MotorCurrentProtectionActivated),
            56 => Option::Some(AlarmWarningRecirculationPump::Underload),
            57 => Option::Some(AlarmWarningRecirculationPump::DryRunning),
            58 => Option::Some(AlarmWarningRecirculationPump::LowFlow),
            59 => Option::Some(AlarmWarningRecirculationPump::NoFlow),
            60 => Option::Some(AlarmWarningRecirculationPump::LowInputPower),
            61 => Option::Some(AlarmWarningRecirculationPump::Spare61),
            62 => Option::Some(AlarmWarningRecirculationPump::Spare62),
            63 => Option::Some(AlarmWarningRecirculationPump::Spare63),
            64 => Option::Some(AlarmWarningRecirculationPump::Spare64),
            65 => Option::Some(AlarmWarningRecirculationPump::MotorTemperature1),
            66 => Option::Some(AlarmWarningRecirculationPump::TemperatureControlElectronics),
            67 => Option::Some(AlarmWarningRecirculationPump::TemperatureTooHighInternalFrequencyConverterModule),
            68 => Option::Some(AlarmWarningRecirculationPump::ExternalTemperatureOrWaterTemperature),
            69 => Option::Some(AlarmWarningRecirculationPump::ThermalRelay1InMotor),
            70 => Option::Some(AlarmWarningRecirculationPump::ThermalRelay2InMotor),
            71 => Option::Some(AlarmWarningRecirculationPump::MotorTemperature2),
            72 => Option::Some(AlarmWarningRecirculationPump::HardwareFaultType1),
            73 => Option::Some(AlarmWarningRecirculationPump::HardwareShutdown),
            74 => Option::Some(AlarmWarningRecirculationPump::InternalSupplyVoltageTooHigh),
            75 => Option::Some(AlarmWarningRecirculationPump::InternalSupplyVoltageTooLow),
            76 => Option::Some(AlarmWarningRecirculationPump::InternalCommunicationFault),
            77 => Option::Some(AlarmWarningRecirculationPump::CommunicationFaultTwinHeadPump),
            78 => Option::Some(AlarmWarningRecirculationPump::FaultSpeedPlug),
            79 => Option::Some(AlarmWarningRecirculationPump::FunctionalFaultAddonModule),
            80 => Option::Some(AlarmWarningRecirculationPump::HardwareFaultType2),
            81 => Option::Some(AlarmWarningRecirculationPump::VerificationErrorDataArea),
            82 => Option::Some(AlarmWarningRecirculationPump::VerificationErrorCodeArea),
            83 => Option::Some(AlarmWarningRecirculationPump::VerificationErrorFeParameterArea),
            84 => Option::Some(AlarmWarningRecirculationPump::MemoryAccessError),
            85 => Option::Some(AlarmWarningRecirculationPump::VerificationErrorBeParameterArea),
            86 => Option::Some(AlarmWarningRecirculationPump::FaultIoModule),
            87 => Option::Some(AlarmWarningRecirculationPump::Spare87),
            88 => Option::Some(AlarmWarningRecirculationPump::SensorFault),
            89 => Option::Some(AlarmWarningRecirculationPump::SignalFaultFeedbackSensor1),
            90 => Option::Some(AlarmWarningRecirculationPump::SignalFaultSpeedSensor),
            91 => Option::Some(AlarmWarningRecirculationPump::SignalFaultTemperatureSensor1),
            92 => Option::Some(AlarmWarningRecirculationPump::CalibrationFaultFeedbackSensor),
            93 => Option::Some(AlarmWarningRecirculationPump::SignalFaultSensor2),
            94 => Option::Some(AlarmWarningRecirculationPump::LimitExceededSensor1),
            95 => Option::Some(AlarmWarningRecirculationPump::LimitExceededSensor2),
            96 => Option::Some(AlarmWarningRecirculationPump::SetpointSignalOutsideRange),
            97 => Option::Some(AlarmWarningRecirculationPump::SignalFaultSetpointInput),
            98 => Option::Some(AlarmWarningRecirculationPump::SignalFaultSetpointInfluence),
            99 => Option::Some(AlarmWarningRecirculationPump::SignalFaultAnalogSetpoint),
            100 => Option::Some(AlarmWarningRecirculationPump::RtcTimeSynchronisationWithCellularNetworkOccurred),
            101 => Option::Some(AlarmWarningRecirculationPump::Spare101),
            102 => Option::Some(AlarmWarningRecirculationPump::DosingPumpNotReady),
            103 => Option::Some(AlarmWarningRecirculationPump::EmergencyStop),
            104 => Option::Some(AlarmWarningRecirculationPump::SoftwareShutdown),
            105 => Option::Some(AlarmWarningRecirculationPump::ElectronicRectifierProtectionActivated),
            106 => Option::Some(AlarmWarningRecirculationPump::ElectronicInverterProtectionActivated),
            107 => Option::Some(AlarmWarningRecirculationPump::Spare107),
            108 => Option::Some(AlarmWarningRecirculationPump::Spare108),
            109 => Option::Some(AlarmWarningRecirculationPump::Spare109),
            110 => Option::Some(AlarmWarningRecirculationPump::SkewLoadElectricalAsymmetry),
            111 => Option::Some(AlarmWarningRecirculationPump::CurrentAsymmetry),
            112 => Option::Some(AlarmWarningRecirculationPump::CosPhiTooHigh),
            113 => Option::Some(AlarmWarningRecirculationPump::CosPhiTooLow),
            114 => Option::Some(AlarmWarningRecirculationPump::MotorHeaterFunctionActivated),
            115 => Option::Some(AlarmWarningRecirculationPump::GrinderReversalAttemptFailed),
            116 => Option::Some(AlarmWarningRecirculationPump::GrinderMotorOvertemperature),
            117 => Option::Some(AlarmWarningRecirculationPump::IntrusionDoorOpened),
            118 => Option::Some(AlarmWarningRecirculationPump::SignalFaultHydrogenSulfideH2SSensor),
            119 => Option::Some(AlarmWarningRecirculationPump::SignalFaultAnalogInputAI4),
            120 => Option::Some(AlarmWarningRecirculationPump::AuxiliaryWindingFault),
            121 => Option::Some(AlarmWarningRecirculationPump::AuxiliaryWindingCurrentTooHigh),
            122 => Option::Some(AlarmWarningRecirculationPump::AuxiliaryWindingCurrentTooLow),
            123 => Option::Some(AlarmWarningRecirculationPump::StartCapacitorLow),
            124 => Option::Some(AlarmWarningRecirculationPump::RunCapacitorLow),
            125 => Option::Some(AlarmWarningRecirculationPump::SignalFaultOutdoorTemperatureSensor),
            126 => Option::Some(AlarmWarningRecirculationPump::SignalFaultAirTemperatureSensor),
            127 => Option::Some(AlarmWarningRecirculationPump::SignalFaultShuntRelativePressureSensor),
            128 => Option::Some(AlarmWarningRecirculationPump::StrainerClogged),
            129 => Option::Some(AlarmWarningRecirculationPump::Spare129),
            130 => Option::Some(AlarmWarningRecirculationPump::Spare130),
            131 => Option::Some(AlarmWarningRecirculationPump::Spare131),
            132 => Option::Some(AlarmWarningRecirculationPump::Spare132),
            133 => Option::Some(AlarmWarningRecirculationPump::Spare133),
            134 => Option::Some(AlarmWarningRecirculationPump::Spare134),
            135 => Option::Some(AlarmWarningRecirculationPump::Spare135),
            136 => Option::Some(AlarmWarningRecirculationPump::Spare136),
            137 => Option::Some(AlarmWarningRecirculationPump::Spare137),
            138 => Option::Some(AlarmWarningRecirculationPump::Spare138),
            139 => Option::Some(AlarmWarningRecirculationPump::Spare139),
            140 => Option::Some(AlarmWarningRecirculationPump::Spare140),
            141 => Option::Some(AlarmWarningRecirculationPump::Spare141),
            142 => Option::Some(AlarmWarningRecirculationPump::Spare142),
            143 => Option::Some(AlarmWarningRecirculationPump::Spare143),
            144 => Option::Some(AlarmWarningRecirculationPump::MotorTemperature3),
            145 => Option::Some(AlarmWarningRecirculationPump::BearingTemperatureHighGeneralOrTopBearing),
            146 => Option::Some(AlarmWarningRecirculationPump::BearingTemperatureHighMiddleBearing),
            147 => Option::Some(AlarmWarningRecirculationPump::BearingTemperatureHighBottomBearing),
            148 => Option::Some(AlarmWarningRecirculationPump::MotorTemperatureHighDriveEnd),
            149 => Option::Some(AlarmWarningRecirculationPump::MotorTemperatureHighNonDriveEnd),
            150 => Option::Some(AlarmWarningRecirculationPump::FaultPumpModule),
            151 => Option::Some(AlarmWarningRecirculationPump::FaultDisplayHmi),
            152 => Option::Some(AlarmWarningRecirculationPump::CommunicationFaultAddonModule),
            153 => Option::Some(AlarmWarningRecirculationPump::FaultAnalogOutput),
            154 => Option::Some(AlarmWarningRecirculationPump::CommunicationFaultDisplay),
            155 => Option::Some(AlarmWarningRecirculationPump::InrushFault),
            156 => Option::Some(AlarmWarningRecirculationPump::CommunicationFaultInternalFrequencyConverterModule),
            157 => Option::Some(AlarmWarningRecirculationPump::RealTimeClockOutOfOrder),
            158 => Option::Some(AlarmWarningRecirculationPump::HardwareCircuitMeasurementFault),
            159 => Option::Some(AlarmWarningRecirculationPump::CommunicationInterfaceModuleFault),
            160 => Option::Some(AlarmWarningRecirculationPump::CellularModemSimCardFault),
            161 => Option::Some(AlarmWarningRecirculationPump::SensorSupplyFault5V),
            162 => Option::Some(AlarmWarningRecirculationPump::SensorSupplyFault24V),
            163 => Option::Some(AlarmWarningRecirculationPump::MeasurementFaultMotorProtection),
            164 => Option::Some(AlarmWarningRecirculationPump::SignalFaultLiqTecSensor),
            165 => Option::Some(AlarmWarningRecirculationPump::SignalFaultAnalogInput1),
            166 => Option::Some(AlarmWarningRecirculationPump::SignalFaultAnalogInput2),
            167 => Option::Some(AlarmWarningRecirculationPump::SignalFaultAnalogInput3),
            168 => Option::Some(AlarmWarningRecirculationPump::SignalFaultPressureSensor),
            169 => Option::Some(AlarmWarningRecirculationPump::SignalFaultFlowSensor),
            170 => Option::Some(AlarmWarningRecirculationPump::SignalFaultWaterInOilSensor),
            171 => Option::Some(AlarmWarningRecirculationPump::SignalFaultMoistureSensor),
            172 => Option::Some(AlarmWarningRecirculationPump::SignalFaultAtmosphericPressureSensor),
            173 => Option::Some(AlarmWarningRecirculationPump::SignalFaultRotorPositionSensor),
            174 => Option::Some(AlarmWarningRecirculationPump::SignalFaultRotorOriginSensor),
            175 => Option::Some(AlarmWarningRecirculationPump::SignalFaultTemperatureSensor2),
            176 => Option::Some(AlarmWarningRecirculationPump::SignalFaultTemperatureSensor3),
            177 => Option::Some(AlarmWarningRecirculationPump::SignalFaultSmartTrimGapSensor),
            178 => Option::Some(AlarmWarningRecirculationPump::SignalFaultVibrationSensor),
            179 => Option::Some(AlarmWarningRecirculationPump::SignalFaultBearingTemperatureSensorGeneralOrTopBearing),
            180 => Option::Some(AlarmWarningRecirculationPump::SignalFaultBearingTemperatureSensorMiddleBearing),
            181 => Option::Some(AlarmWarningRecirculationPump::SignalFaultPtcSensor),
            182 => Option::Some(AlarmWarningRecirculationPump::SignalFaultBearingTemperatureSensorBottomBearing),
            183 => Option::Some(AlarmWarningRecirculationPump::SignalFaultExtraTemperatureSensor),
            184 => Option::Some(AlarmWarningRecirculationPump::SignalFaultGeneralPurposeSensor),
            185 => Option::Some(AlarmWarningRecirculationPump::UnknownSensorType),
            186 => Option::Some(AlarmWarningRecirculationPump::SignalFaultPowerMeterSensor),
            187 => Option::Some(AlarmWarningRecirculationPump::SignalFaultEnergyMeter),
            188 => Option::Some(AlarmWarningRecirculationPump::SignalFaultUserDefinedSensor),
            189 => Option::Some(AlarmWarningRecirculationPump::SignalFaultLevelSensor),
            190 => Option::Some(AlarmWarningRecirculationPump::LimitExceededSensor1InApplication),
            191 => Option::Some(AlarmWarningRecirculationPump::LimitExceededSensor2InApplication),
            192 => Option::Some(AlarmWarningRecirculationPump::LimitExceededSensor3InApplication),
            193 => Option::Some(AlarmWarningRecirculationPump::LimitExceededSensor4InApplication),
            194 => Option::Some(AlarmWarningRecirculationPump::LimitExceededSensor5InApplication),
            195 => Option::Some(AlarmWarningRecirculationPump::LimitExceededSensor6InApplication),
            196 => Option::Some(AlarmWarningRecirculationPump::OperationWithReducedEfficiency),
            197 => Option::Some(AlarmWarningRecirculationPump::OperationWithReducedPressure),
            198 => Option::Some(AlarmWarningRecirculationPump::OperationWithIncreasedPowerConsumption),
            199 => Option::Some(AlarmWarningRecirculationPump::ProcessOutOfRange),
            200 => Option::Some(AlarmWarningRecirculationPump::ApplicationAlarm),
            201 => Option::Some(AlarmWarningRecirculationPump::ExternalSensorInputHigh),
            202 => Option::Some(AlarmWarningRecirculationPump::ExternalSensorInputLow),
            203 => Option::Some(AlarmWarningRecirculationPump::AlarmOnAllPumps),
            204 => Option::Some(AlarmWarningRecirculationPump::InconsistencyBetweenSensors),
            205 => Option::Some(AlarmWarningRecirculationPump::LevelFloatSwitchSequenceInconsistency),
            206 => Option::Some(AlarmWarningRecirculationPump::WaterShortageLevel1),
            207 => Option::Some(AlarmWarningRecirculationPump::WaterLeakage),
            208 => Option::Some(AlarmWarningRecirculationPump::Cavitation),
            209 => Option::Some(AlarmWarningRecirculationPump::NonReturnValveFault),
            210 => Option::Some(AlarmWarningRecirculationPump::HighPressure),
            211 => Option::Some(AlarmWarningRecirculationPump::LowPressure),
            212 => Option::Some(AlarmWarningRecirculationPump::DiaphragmTankPrechargePressureOutOfRange),
            213 => Option::Some(AlarmWarningRecirculationPump::VfdNotReady),
            214 => Option::Some(AlarmWarningRecirculationPump::WaterShortageLevel2),
            215 => Option::Some(AlarmWarningRecirculationPump::SoftPressureBuildupTimeout),
            216 => Option::Some(AlarmWarningRecirculationPump::PilotPumpAlarm),
            217 => Option::Some(AlarmWarningRecirculationPump::AlarmGeneralPurposeSensorHigh),
            218 => Option::Some(AlarmWarningRecirculationPump::AlarmGeneralPurposeSensorLow),
            219 => Option::Some(AlarmWarningRecirculationPump::PressureReliefNotAdequate),
            220 => Option::Some(AlarmWarningRecirculationPump::FaultMotorContactorFeedback),
            221 => Option::Some(AlarmWarningRecirculationPump::FaultMixerContactorFeedback),
            222 => Option::Some(AlarmWarningRecirculationPump::TimeForServiceMixer),
            223 => Option::Some(AlarmWarningRecirculationPump::TimeForServiceMixerDuplicate),
            224 => Option::Some(AlarmWarningRecirculationPump::PumpFaultDueToAuxiliaryComponentOrGeneralFault),
            225 => Option::Some(AlarmWarningRecirculationPump::CommunicationFaultPumpModule),
            226 => Option::Some(AlarmWarningRecirculationPump::CommunicationFaultIoModule),
            227 => Option::Some(AlarmWarningRecirculationPump::CombiEvent),
            228 => Option::Some(AlarmWarningRecirculationPump::NightFlowMaxLimitExceeded),
            229 => Option::Some(AlarmWarningRecirculationPump::WaterOnFloor),
            230 => Option::Some(AlarmWarningRecirculationPump::NetworkAlarm),
            231 => Option::Some(AlarmWarningRecirculationPump::EthernetNoIpAddressFromDhcpServer),
            232 => Option::Some(AlarmWarningRecirculationPump::EthernetAutoDisabledDueToMisuse),
            233 => Option::Some(AlarmWarningRecirculationPump::EthernetIpAddressConflict),
            234 => Option::Some(AlarmWarningRecirculationPump::BackupPumpAlarm),
            235 => Option::Some(AlarmWarningRecirculationPump::GasDetected),
            236 => Option::Some(AlarmWarningRecirculationPump::Pump1Fault),
            237 => Option::Some(AlarmWarningRecirculationPump::Pump2Fault),
            238 => Option::Some(AlarmWarningRecirculationPump::Pump3Fault),
            239 => Option::Some(AlarmWarningRecirculationPump::Pump4Fault),
            240 => Option::Some(AlarmWarningRecirculationPump::LubricateBearings),
            241 => Option::Some(AlarmWarningRecirculationPump::MotorPhaseFailure),
            242 => Option::Some(AlarmWarningRecirculationPump::AutomaticMotorModelRecognitionFailed),
            243 => Option::Some(AlarmWarningRecirculationPump::MotorRelayHasBeenForced),
            244 => Option::Some(AlarmWarningRecirculationPump::FaultOnOffAutoSwitch),
            245 => Option::Some(AlarmWarningRecirculationPump::PumpContinuousRuntimeTooLong),
            246 => Option::Some(AlarmWarningRecirculationPump::UserDefinedRelayHasBeenForced),
            247 => Option::Some(AlarmWarningRecirculationPump::PowerOnNotice),
            248 => Option::Some(AlarmWarningRecirculationPump::FaultBatteryUps),
            249 => Option::Some(AlarmWarningRecirculationPump::UserDefinedEvent1),
            250 => Option::Some(AlarmWarningRecirculationPump::UserDefinedEvent2),
            251 => Option::Some(AlarmWarningRecirculationPump::UserDefinedEvent3),
            252 => Option::Some(AlarmWarningRecirculationPump::UserDefinedEvent4),
            253 => Option::Some(AlarmWarningRecirculationPump::SmsDataFromDddSensorNotReceivedWithinTimeLimit),
            254 => Option::Some(AlarmWarningRecirculationPump::InconsistentDataModel),
            255 => Option::Some(AlarmWarningRecirculationPump::Spare255),
        }
    }
}

/// Reading back the register code of a variant whose code is in
/// [0, 32) gives that variant.
#[verifier::rlimit(50)]
proof fn lemma_alarm_warning_recirculation_pump_value_roundtrip_from_0(variant: AlarmWarningRecirculationPump)
    requires
        0 <= variant.spec_value() < 32,
    ensures
        AlarmWarningRecirculationPump::spec_from_repr(variant.spec_value()) == Option::Some(variant),
{
    match variant {
        AlarmWarningRecirculationPump::NoAlarm => {},
        AlarmWarningRecirculationPump::LeakageCurrent => {},
        AlarmWarningRecirculationPump::MissingPhase => {},
        AlarmWarningRecirculationPump::ExternalFaultSignal => {},
        AlarmWarningRecirculationPump::TooManyRestarts => {},
        AlarmWarningRecirculationPump::RegenerativeBraking => {},
        AlarmWarningRecirculationPump::MainsFault => {},
        AlarmWarningRecirculationPump::TooManyHardwareShutdowns => {},
        AlarmWarningRecirculationPump::PwmSwitchingFrequencyReduced => {},
        AlarmWarningRecirculationPump::PhaseSequenceReversal => {},
        AlarmWarningRecirculationPump::CommunicationFaultPump => {},
        AlarmWarningRecirculationPump::WaterInOilFault => {},
        AlarmWarningRecirculationPump::TimeForService => {},
        AlarmWarningRecirculationPump::MoistureAlarmAnalog => {},
        AlarmWarningRecirculationPump::ElectronicDcLinkProtectionActivated => {},
        AlarmWarningRecirculationPump::CommunicationFaultMainSystem => {},
        AlarmWarningRecirculationPump::Other => {},
        AlarmWarningRecirculationPump::PerformanceRequirementCanNotBeMet => {},
        AlarmWarningRecirculationPump::CommandedAlarmStandby => {},
        AlarmWarningRecirculationPump::DiaphragmBreak => {},
        AlarmWarningRecirculationPump::InsulationResistanceLow => {},
        AlarmWarningRecirculationPump::TooManyStartsPerHour => {},
        AlarmWarningRecirculationPump::MoistureSwitchAlarmDigital => {},
        AlarmWarningRecirculationPump::SmartTrimGapAlarm => {},
        AlarmWarningRecirculationPump::Vibration => {},
        AlarmWarningRecirculationPump::SetupConflict => {},
        AlarmWarningRecirculationPump::LoadContinuesEvenIfMotorSwitchedOff => {},
        AlarmWarningRecirculationPump::ExternalMotorProtectorActivated => {},
        AlarmWarningRecirculationPump::BatteryLow => {},
        AlarmWarningRecirculationPump::TurbineOperation => {},
        AlarmWarningRecirculationPump::ChangeBearings => {},
        AlarmWarningRecirculationPump::ChangeVaristors => {},
        _ => {},
    }
}

/// A register code in [0, 32) names the variant with that code.
#[verifier::rlimit(50)]
proof fn lemma_alarm_warning_recirculation_pump_code_roundtrip_from_0(value: u8)
    requires
        0 <= value < 32,
    ensures
        AlarmWarningRecirculationPump::spec_from_repr(value) matches Option::Some(found) && found.spec_value() == value,
{
    match value {
        0 => {},
        1 => {},
        2 => {},
        3 => {},
        4 => {},
        5 => {},
        6 => {},
        7 => {},
        8 => {},
        9 => {},
        10 => {},
        11 => {},
        12 => {},
        13 => {},
        14 => {},
        15 => {},
        16 => {},
        17 => {},
        18 => {},
        19 => {},
        20 => {},
        21 => {},
        22 => {},
        23 => {},
        24 => {},
        25 => {},
        26 => {},
        27 => {},
        28 => {},
        29 => {},
        30 => {},
        31 => {},
        _ => {},
    }
}

/// Reading back the register code of a variant whose code is in
/// [32, 64) gives that variant.
#[verifier::rlimit(50)]
proof fn lemma_alarm_warning_recirculation_pump_value_roundtrip_from_32(variant: AlarmWarningRecirculationPump)
    requires
        32 <= variant.spec_value() < 64,
    ensures
        AlarmWarningRecirculationPump::spec_from_repr(variant.spec_value()) == Option::Some(variant),
{
    match variant {
        AlarmWarningRecirculationPump::Overvoltage => {},
        AlarmWarningRecirculationPump::SoonTimeForService => {},
        AlarmWarningRecirculationPump::NoPrimingWater => {},
        AlarmWarningRecirculationPump::GasInPumpHeadDeaeratingProblem => {},
        AlarmWarningRecirculationPump::OutletValveLeakage => {},
        AlarmWarningRecirculationPump::InletValveLeakage => {},
        AlarmWarningRecirculationPump::VentValveDefective => {},
        AlarmWarningRecirculationPump::ValveStuckOrDefective => {},
        AlarmWarningRecirculationPump::Undervoltage => {},
        AlarmWarningRecirculationPump::UndervoltageTransient => {},
        AlarmWarningRecirculationPump::CutInFault => {},
        AlarmWarningRecirculationPump::Spare43 => {},
        AlarmWarningRecirculationPump::Spare44 => {},
        AlarmWarningRecirculationPump::VoltageAsymmetry => {},
        AlarmWarningRecirculationPump::Spare46 => {},
        AlarmWarningRecirculationPump::Spare47 => {},
        AlarmWarningRecirculationPump::Overload => {},
        AlarmWarningRecirculationPump::Overcurrent => {},
        AlarmWarningRecirculationPump::MotorProtectionFunctionGeneralShutdown => {},
        AlarmWarningRecirculationPump::BlockedMotorOrPump => {},
        AlarmWarningRecirculationPump::MotorSlipHigh => {},
        AlarmWarningRecirculationPump::StalledMotor => {},
        AlarmWarningRecirculationPump::MotorProtectionFunction => {},
        AlarmWarningRecirculationPump::MotorCurrentProtectionActivated => {},
        AlarmWarningRecirculationPump::Underload => {},
        AlarmWarningRecirculationPump::DryRunning => {},
        AlarmWarningRecirculationPump::LowFlow => {},
        AlarmWarningRecirculationPump::NoFlow => {},
        AlarmWarningRecirculationPump::LowInputPower => {},
        AlarmWarningRecirculationPump::Spare61 => {},
        AlarmWarningRecirculationPump::Spare62 => {},
        AlarmWarningRecirculationPump::Spare63 => {},
        _ => {},
    }
}

/// A register code in [32, 64) names the variant with that code.
#[verifier::rlimit(50)]
proof fn lemma_alarm_warning_recirculation_pump_code_roundtrip_from_32(value: u8)
    requires
        32 <= value < 64,
    ensures
        AlarmWarningRecirculationPump::spec_from_repr(value) matches Option::Some(found) && found.spec_value() == value,
{
    match value {
        32 => {},
        33 => {},
        34 => {},
        35 => {},
        36 => {},
        37 => {},
        38 => {},
        39 => {},
        40 => {},
        41 => {},
        42 => {},
        43 => {},
        44 => {},
        45 => {},
        46 => {},
        47 => {},
        48 => {},
        49 => {},
        50 => {},
        51 => {},
        52 => {},
        53 => {},
        54 => {},
        55 => {},
        56 => {},
        57 => {},
        58 => {},
        59 => {},
        60 => {},
        61 => {},
        62 => {},
        63 => {},
        _ => {},
    }
}

/// Reading back the register code of a variant whose code is in
/// [64, 96) gives that variant.
#[verifier::rlimit(50)]
proof fn lemma_alarm_warning_recirculation_pump_value_roundtrip_from_64(variant: AlarmWarningRecirculationPump)
    requires
        64 <= variant.spec_value() < 96,
    ensures
        AlarmWarningRecirculationPump::spec_from_repr(variant.spec_value()) == Option::Some(variant),
{
    match variant {
        AlarmWarningRecirculationPump::Spare64 => {},
        AlarmWarningRecirculationPump::MotorTemperature1 => {},
        AlarmWarningRecirculationPump::TemperatureControlElectronics => {},
        AlarmWarningRecirculationPump::TemperatureTooHighInternalFrequencyConverterModule => {},
        AlarmWarningRecirculationPump::ExternalTemperatureOrWaterTemperature => {},
        AlarmWarningRecirculationPump::ThermalRelay1InMotor => {},
        AlarmWarningRecirculationPump::ThermalRelay2InMotor => {},
        AlarmWarningRecirculationPump::MotorTemperature2 => {},
        AlarmWarningRecirculationPump::HardwareFaultType1 => {},
        AlarmWarningRecirculationPump::HardwareShutdown => {},
        AlarmWarningRecirculationPump::InternalSupplyVoltageTooHigh => {},
        AlarmWarningRecirculationPump::InternalSupplyVoltageTooLow => {},
        AlarmWarningRecirculationPump::InternalCommunicationFault => {},
        AlarmWarningRecirculationPump::CommunicationFaultTwinHeadPump => {},
        AlarmWarningRecirculationPump::FaultSpeedPlug => {},
        AlarmWarningRecirculationPump::FunctionalFaultAddonModule => {},
        AlarmWarningRecirculationPump::HardwareFaultType2 => {},
        AlarmWarningRecirculationPump::VerificationErrorDataArea => {},
        AlarmWarningRecirculationPump::VerificationErrorCodeArea => {},
        AlarmWarningRecirculationPump::VerificationErrorFeParameterArea => {},
        AlarmWarningRecirculationPump::MemoryAccessError => {},
        AlarmWarningRecirculationPump::VerificationErrorBeParameterArea => {},
        AlarmWarningRecirculationPump::FaultIoModule => {},
        AlarmWarningRecirculationPump::Spare87 => {},
        AlarmWarningRecirculationPump::SensorFault => {},
        AlarmWarningRecirculationPump::SignalFaultFeedbackSensor1 => {},
        AlarmWarningRecirculationPump::SignalFaultSpeedSensor => {},
        AlarmWarningRecirculationPump::SignalFaultTemperatureSensor1 => {},
        AlarmWarningRecirculationPump::CalibrationFaultFeedbackSensor => {},
        AlarmWarningRecirculationPump::SignalFaultSensor2 => {},
        AlarmWarningRecirculationPump::LimitExceededSensor1 => {},
        AlarmWarningRecirculationPump::LimitExceededSensor2 => {},
        _ => {},
    }
}

/// A register code in [64, 96) names the variant with that code.
#[verifier::rlimit(50)]
proof fn lemma_alarm_warning_recirculation_pump_code_roundtrip_from_64(value: u8)
    requires
        64 <= value < 96,
    ensures
        AlarmWarningRecirculationPump::spec_from_repr(value) matches Option::Some(found) && found.spec_value() == value,
{
    match value {
        64 => {},
        65 => {},
        66 => {},
        67 => {},
        68 => {},
        69 => {},
        70 => {},
        71 => {},
        72 => {},
        73 => {},
        74 => {},
        75 => {},
        76 => {},
        77 => {},
        78 => {},
        79 => {},
        80 => {},
        81 => {},
        82 => {},
        83 => {},
        84 => {},
        85 => {},
        86 => {},
        87 => {},
        88 => {},
        89 => {},
        90 => {},
        91 => {},
        92 => {},
        93 => {},
        94 => {},
        95 => {},
        _ => {},
    }
}

/// Reading back the register code of a variant whose code is in
/// [96, 128) gives that variant.
#[verifier::rlimit(50)]
proof fn lemma_alarm_warning_recirculation_pump_value_roundtrip_from_96(variant: AlarmWarningRecirculationPump)
    requires
        96 <= variant.spec_value() < 128,
    ensures
        AlarmWarningRecirculationPump::spec_from_repr(variant.spec_value()) == Option::Some(variant),
{
    match variant {
        AlarmWarningRecirculationPump::SetpointSignalOutsideRange => {},
        AlarmWarningRecirculationPump::SignalFaultSetpointInput => {},
        AlarmWarningRecirculationPump::SignalFaultSetpointInfluence => {},
        AlarmWarningRecirculationPump::SignalFaultAnalogSetpoint => {},
        AlarmWarningRecirculationPump::RtcTimeSynchronisationWithCellularNetworkOccurred => {},
        AlarmWarningRecirculationPump::Spare101 => {},
        AlarmWarningRecirculationPump::DosingPumpNotReady => {},
        AlarmWarningRecirculationPump::EmergencyStop => {},
        AlarmWarningRecirculationPump::SoftwareShutdown => {},
        AlarmWarningRecirculationPump::ElectronicRectifierProtectionActivated => {},
        AlarmWarningRecirculationPump::ElectronicInverterProtectionActivated => {},
        AlarmWarningRecirculationPump::Spare107 => {},
        AlarmWarningRecirculationPump::Spare108 => {},
        AlarmWarningRecirculationPump::Spare109 => {},
        AlarmWarningRecirculationPump::SkewLoadElectricalAsymmetry => {},
        AlarmWarningRecirculationPump::CurrentAsymmetry => {},
        AlarmWarningRecirculationPump::CosPhiTooHigh => {},
        AlarmWarningRecirculationPump::CosPhiTooLow => {},
        AlarmWarningRecirculationPump::MotorHeaterFunctionActivated => {},
        AlarmWarningRecirculationPump::GrinderReversalAttemptFailed => {},
        AlarmWarningRecirculationPump::GrinderMotorOvertemperature => {},
        AlarmWarningRecirculationPump::IntrusionDoorOpened => {},
        AlarmWarningRecirculationPump::SignalFaultHydrogenSulfideH2SSensor => {},
        AlarmWarningRecirculationPump::SignalFaultAnalogInputAI4 => {},
        AlarmWarningRecirculationPump::AuxiliaryWindingFault => {},
        AlarmWarningRecirculationPump::AuxiliaryWindingCurrentTooHigh => {},
        AlarmWarningRecirculationPump::AuxiliaryWindingCurrentTooLow => {},
        AlarmWarningRecirculationPump::StartCapacitorLow => {},
        AlarmWarningRecirculationPump::RunCapacitorLow => {},
        AlarmWarningRecirculationPump::SignalFaultOutdoorTemperatureSensor => {},
        AlarmWarningRecirculationPump::SignalFaultAirTemperatureSensor => {},
        AlarmWarningRecirculationPump::SignalFaultShuntRelativePressureSensor => {},
        _ => {},
    }
}

/// A register code in [96, 128) names the variant with that code.
#[verifier::rlimit(50)]
proof fn lemma_alarm_warning_recirculation_pump_code_roundtrip_from_96(value: u8)
    requires
        96 <= value < 128,
    ensures
        AlarmWarningRecirculationPump::spec_from_repr(value) matches Option::Some(found) && found.spec_value() == value,
{
    match value {
        96 => {},
        97 => {},
        98 => {},
        99 => {},
        100 => {},
        101 => {},
        102 => {},
        103 => {},
        104 => {},
        105 => {},
        106 => {},
        107 => {},
        108 => {},
        109 => {},
        110 => {},
        111 => {},
        112 => {},
        113 => {},
        114 => {},
        115 => {},
        116 => {},
        117 => {},
        118 => {},
        119 => {},
        120 => {},
        121 => {},
        122 => {},
        123 => {},
        124 => {},
        125 => {},
        126 => {},
        127 => {},
        _ => {},
    }
}

/// Reading back the register code of a variant whose code is in
/// [128, 160) gives that variant.
#[verifier::rlimit(50)]
proof fn lemma_alarm_warning_recirculation_pump_value_roundtrip_from_128(variant: AlarmWarningRecirculationPump)
    requires
        128 <= variant.spec_value() < 160,
    ensures
        AlarmWarningRecirculationPump::spec_from_repr(variant.spec_value()) == Option::Some(variant),
{
    match variant {
        AlarmWarningRecirculationPump::StrainerClogged => {},
        AlarmWarningRecirculationPump::Spare129 => {},
        AlarmWarningRecirculationPump::Spare130 => {},
        AlarmWarningRecirculationPump::Spare131 => {},
        AlarmWarningRecirculationPump::Spare132 => {},
        AlarmWarningRecirculationPump::Spare133 => {},
        AlarmWarningRecirculationPump::Spare134 => {},
        AlarmWarningRecirculationPump::Spare135 => {},
        AlarmWarningRecirculationPump::Spare136 => {},
        AlarmWarningRecirculationPump::Spare137 => {},
        AlarmWarningRecirculationPump::Spare138 => {},
        AlarmWarningRecirculationPump::Spare139 => {},
        AlarmWarningRecirculationPump::Spare140 => {},
        AlarmWarningRecirculationPump::Spare141 => {},
        AlarmWarningRecirculationPump::Spare142 => {},
        AlarmWarningRecirculationPump::Spare143 => {},
        AlarmWarningRecirculationPump::MotorTemperature3 => {},
        AlarmWarningRecirculationPump::BearingTemperatureHighGeneralOrTopBearing => {},
        AlarmWarningRecirculationPump::BearingTemperatureHighMiddleBearing => {},
        AlarmWarningRecirculationPump::BearingTemperatureHighBottomBearing => {},
        AlarmWarningRecirculationPump::MotorTemperatureHighDriveEnd => {},
        AlarmWarningRecirculationPump::MotorTemperatureHighNonDriveEnd => {},
        AlarmWarningRecirculationPump::FaultPumpModule => {},
        AlarmWarningRecirculationPump::FaultDisplayHmi => {},
        AlarmWarningRecirculationPump::CommunicationFaultAddonModule => {},
        AlarmWarningRecirculationPump::FaultAnalogOutput => {},
        AlarmWarningRecirculationPump::CommunicationFaultDisplay => {},
        AlarmWarningRecirculationPump::InrushFault => {},
        AlarmWarningRecirculationPump::CommunicationFaultInternalFrequencyConverterModule => {},
        AlarmWarningRecirculationPump::RealTimeClockOutOfOrder => {},
        AlarmWarningRecirculationPump::HardwareCircuitMeasurementFault => {},
        AlarmWarningRecirculationPump::CommunicationInterfaceModuleFault => {},
        _ => {},
    }
}

/// A register code in [128, 160) names the variant with that code.
#[verifier::rlimit(50)]
proof fn lemma_alarm_warning_recirculation_pump_code_roundtrip_from_128(value: u8)
    requires
        128 <= value < 160,
    ensures
        AlarmWarningRecirculationPump::spec_from_repr(value) matches Option::Some(found) && found.spec_value() == value,
{
    match value {
        128 => {},
        129 => {},
        130 => {},
        131 => {},
        132 => {},
        133 => {},
        134 => {},
        135 => {},
        136 => {},
        137 => {},
        138 => {},
        139 => {},
        140 => {},
        141 => {},
        142 => {},
        143 => {},
        144 => {},
        145 => {},
        146 => {},
        147 => {},
        148 => {},
        149 => {},
        150 => {},
        151 => {},
        152 => {},
        153 => {},
        154 => {},
        155 => {},
        156 => {},
        157 => {},
        158 => {},
        159 => {},
        _ => {},
    }
}

/// Reading back the register code of a variant whose code is in
/// [160, 192) gives that variant.
#[verifier::rlimit(50)]
proof fn lemma_alarm_warning_recirculation_pump_value_roundtrip_from_160(variant: AlarmWarningRecirculationPump)
    requires
        160 <= variant.spec_value() < 192,
    ensures
        AlarmWarningRecirculationPump::spec_from_repr(variant.spec_value()) == Option::Some(variant),
{
    match variant {
        AlarmWarningRecirculationPump::CellularModemSimCardFault => {},
        AlarmWarningRecirculationPump::SensorSupplyFault5V => {},
        AlarmWarningRecirculationPump::SensorSupplyFault24V => {},
        AlarmWarningRecirculationPump::MeasurementFaultMotorProtection => {},
        AlarmWarningRecirculationPump::SignalFaultLiqTecSensor => {},
        AlarmWarningRecirculationPump::SignalFaultAnalogInput1 => {},
        AlarmWarningRecirculationPump::SignalFaultAnalogInput2 => {},
        AlarmWarningRecirculationPump::SignalFaultAnalogInput3 => {},
        AlarmWarningRecirculationPump::SignalFaultPressureSensor => {},
        AlarmWarningRecirculationPump::SignalFaultFlowSensor => {},
        AlarmWarningRecirculationPump::SignalFaultWaterInOilSensor => {},
        AlarmWarningRecirculationPump::SignalFaultMoistureSensor => {},
        AlarmWarningRecirculationPump::SignalFaultAtmosphericPressureSensor => {},
        AlarmWarningRecirculationPump::SignalFaultRotorPositionSensor => {},
        AlarmWarningRecirculationPump::SignalFaultRotorOriginSensor => {},
        AlarmWarningRecirculationPump::SignalFaultTemperatureSensor2 => {},
        AlarmWarningRecirculationPump::SignalFaultTemperatureSensor3 => {},
        AlarmWarningRecirculationPump::SignalFaultSmartTrimGapSensor => {},
        AlarmWarningRecirculationPump::SignalFaultVibrationSensor => {},
        AlarmWarningRecirculationPump::SignalFaultBearingTemperatureSensorGeneralOrTopBearing => {},
        AlarmWarningRecirculationPump::SignalFaultBearingTemperatureSensorMiddleBearing => {},
        AlarmWarningRecirculationPump::SignalFaultPtcSensor => {},
        AlarmWarningRecirculationPump::SignalFaultBearingTemperatureSensorBottomBearing => {},
        AlarmWarningRecirculationPump::SignalFaultExtraTemperatureSensor => {},
        AlarmWarningRecirculationPump::SignalFaultGeneralPurposeSensor => {},
        AlarmWarningRecirculationPump::UnknownSensorType => {},
        AlarmWarningRecirculationPump::SignalFaultPowerMeterSensor => {},
        AlarmWarningRecirculationPump::SignalFaultEnergyMeter => {},
        AlarmWarningRecirculationPump::SignalFaultUserDefinedSensor => {},
        AlarmWarningRecirculationPump::SignalFaultLevelSensor => {},
        AlarmWarningRecirculationPump::LimitExceededSensor1InApplication => {},
        AlarmWarningRecirculationPump::LimitExceededSensor2InApplication => {},
        _ => {},
    }
}

/// A register code in [160, 192) names the variant with that code.
#[verifier::rlimit(50)]
proof fn lemma_alarm_warning_recirculation_pump_code_roundtrip_from_160(value: u8)
    requires
        160 <= value < 192,
    ensures
        AlarmWarningRecirculationPump::spec_from_repr(value) matches Option::Some(found) && found.spec_value() == value,
{
    match value {
        160 => {},
        161 => {},
        162 => {},
        163 => {},
        164 => {},
        165 => {},
        166 => {},
        167 => {},
        168 => {},
        169 => {},
        170 => {},
        171 => {},
        172 => {},
        173 => {},
        174 => {},
        175 => {},
        176 => {},
        177 => {},
        178 => {},
        179 => {},
        180 => {},
        181 => {},
        182 => {},
        183 => {},
        184 => {},
        185 => {},
        186 => {},
        187 => {},
        188 => {},
        189 => {},
        190 => {},
        191 => {},
        _ => {},
    }
}

/// Reading back the register code of a variant whose code is in
/// [192, 224) gives that variant.
#[verifier::rlimit(50)]
proof fn lemma_alarm_warning_recirculation_pump_value_roundtrip_from_192(variant: AlarmWarningRecirculationPump)
    requires
        192 <= variant.spec_value() < 224,
    ensures
        AlarmWarningRecirculationPump::spec_from_repr(variant.spec_value()) == Option::Some(variant),
{
    match variant {
        AlarmWarningRecirculationPump::LimitExceededSensor3InApplication => {},
        AlarmWarningRecirculationPump::LimitExceededSensor4InApplication => {},
        AlarmWarningRecirculationPump::LimitExceededSensor5InApplication => {},
        AlarmWarningRecirculationPump::LimitExceededSensor6InApplication => {},
        AlarmWarningRecirculationPump::OperationWithReducedEfficiency => {},
        AlarmWarningRecirculationPump::OperationWithReducedPressure => {},
        AlarmWarningRecirculationPump::OperationWithIncreasedPowerConsumption => {},
        AlarmWarningRecirculationPump::ProcessOutOfRange => {},
        AlarmWarningRecirculationPump::ApplicationAlarm => {},
        AlarmWarningRecirculationPump::ExternalSensorInputHigh => {},
        AlarmWarningRecirculationPump::ExternalSensorInputLow => {},
        AlarmWarningRecirculationPump::AlarmOnAllPumps => {},
        AlarmWarningRecirculationPump::InconsistencyBetweenSensors => {},
        AlarmWarningRecirculationPump::LevelFloatSwitchSequenceInconsistency => {},
        AlarmWarningRecirculationPump::WaterShortageLevel1 => {},
        AlarmWarningRecirculationPump::WaterLeakage => {},
        AlarmWarningRecirculationPump::Cavitation => {},
        AlarmWarningRecirculationPump::NonReturnValveFault => {},
        AlarmWarningRecirculationPump::HighPressure => {},
        AlarmWarningRecirculationPump::LowPressure => {},
        AlarmWarningRecirculationPump::DiaphragmTankPrechargePressureOutOfRange => {},
        AlarmWarningRecirculationPump::VfdNotReady => {},
        AlarmWarningRecirculationPump::WaterShortageLevel2 => {},
        AlarmWarningRecirculationPump::SoftPressureBuildupTimeout => {},
        AlarmWarningRecirculationPump::PilotPumpAlarm => {},
        AlarmWarningRecirculationPump::AlarmGeneralPurposeSensorHigh => {},
        AlarmWarningRecirculationPump::AlarmGeneralPurposeSensorLow => {},
        AlarmWarningRecirculationPump::PressureReliefNotAdequate => {},
        AlarmWarningRecirculationPump::FaultMotorContactorFeedback => {},
        AlarmWarningRecirculationPump::FaultMixerContactorFeedback => {},
        AlarmWarningRecirculationPump::TimeForServiceMixer => {},
        AlarmWarningRecirculationPump::TimeForServiceMixerDuplicate => {},
        _ => {},
    }
}

/// A register code in [192, 224) names the variant with that code.
#[verifier::rlimit(50)]
proof fn lemma_alarm_warning_recirculation_pump_code_roundtrip_from_192(value: u8)
    requires
        192 <= value < 224,
    ensures
        AlarmWarningRecirculationPump::spec_from_repr(value) matches Option::Some(found) && found.spec_value() == value,
{
    match value {
        192 => {},
        193 => {},
        194 => {},
        195 => {},
        196 => {},
        197 => {},
        198 => {},
        199 => {},
        200 => {},
        201 => {},
        202 => {},
        203 => {},
        204 => {},
        205 => {},
        206 => {},
        207 => {},
        208 => {},
        209 => {},
        210 => {},
        211 => {},
        212 => {},
        213 => {},
        214 => {},
        215 => {},
        216 => {},
        217 => {},
        218 => {},
        219 => {},
        220 => {},
        221 => {},
        222 => {},
        223 => {},
        _ => {},
    }
}

/// Reading back the register code of a variant whose code is in
/// [224, 256) gives that variant.
#[verifier::rlimit(50)]
proof fn lemma_alarm_warning_recirculation_pump_value_roundtrip_from_224(variant: AlarmWarningRecirculationPump)
    requires
        224 <= variant.spec_value() < 256,
    ensures
        AlarmWarningRecirculationPump::spec_from_repr(variant.spec_value()) == Option::Some(variant),
{
    match variant {
        AlarmWarningRecirculationPump::PumpFaultDueToAuxiliaryComponentOrGeneralFault => {},
        AlarmWarningRecirculationPump::CommunicationFaultPumpModule => {},
        AlarmWarningRecirculationPump::CommunicationFaultIoModule => {},
        AlarmWarningRecirculationPump::CombiEvent => {},
        AlarmWarningRecirculationPump::NightFlowMaxLimitExceeded => {},
        AlarmWarningRecirculationPump::WaterOnFloor => {},
        AlarmWarningRecirculationPump::NetworkAlarm => {},
        AlarmWarningRecirculationPump::EthernetNoIpAddressFromDhcpServer => {},
        AlarmWarningRecirculationPump::EthernetAutoDisabledDueToMisuse => {},
        AlarmWarningRecirculationPump::EthernetIpAddressConflict => {},
        AlarmWarningRecirculationPump::BackupPumpAlarm => {},
        AlarmWarningRecirculationPump::GasDetected => {},
        AlarmWarningRecirculationPump::Pump1Fault => {},
        AlarmWarningRecirculationPump::Pump2Fault => {},
        AlarmWarningRecirculationPump::Pump3Fault => {},
        AlarmWarningRecirculationPump::Pump4Fault => {},
        AlarmWarningRecirculationPump::LubricateBearings => {},
        AlarmWarningRecirculationPump::MotorPhaseFailure => {},
        AlarmWarningRecirculationPump::AutomaticMotorModelRecognitionFailed => {},
        AlarmWarningRecirculationPump::MotorRelayHasBeenForced => {},
        AlarmWarningRecirculationPump::FaultOnOffAutoSwitch => {},
        AlarmWarningRecirculationPump::PumpContinuousRuntimeTooLong => {},
        AlarmWarningRecirculationPump::UserDefinedRelayHasBeenForced => {},
        AlarmWarningRecirculationPump::PowerOnNotice => {},
        AlarmWarningRecirculationPump::FaultBatteryUps => {},
        AlarmWarningRecirculationPump::UserDefinedEvent1 => {},
        AlarmWarningRecirculationPump::UserDefinedEvent2 => {},
        AlarmWarningRecirculationPump::UserDefinedEvent3 => {},
        AlarmWarningRecirculationPump::UserDefinedEvent4 => {},
        AlarmWarningRecirculationPump::SmsDataFromDddSensorNotReceivedWithinTimeLimit => {},
        AlarmWarningRecirculationPump::InconsistentDataModel => {},
        AlarmWarningRecirculationPump::Spare255 => {},
        _ => {},
    }
}

/// A register code in [224, 256) names the variant with that code.
#[verifier::rlimit(50)]
proof fn lemma_alarm_warning_recirculation_pump_code_roundtrip_from_224(value: u8)
    requires
        224 <= value < 256,
    ensures
        AlarmWarningRecirculationPump::spec_from_repr(value) matches Option::Some(found) && found.spec_value() == value,
{
    match value {
        224 => {},
        225 => {},
        226 => {},
        227 => {},
        228 => {},
        229 => {},
        230 => {},
        231 => {},
        232 => {},
        233 => {},
        234 => {},
        235 => {},
        236 => {},
        237 => {},
        238 => {},
        239 => {},
        240 => {},
        241 => {},
        242 => {},
        243 => {},
        244 => {},
        245 => {},
        246 => {},
        247 => {},
        248 => {},
        249 => {},
        250 => {},
        251 => {},
        252 => {},
        253 => {},
        254 => {},
        255 => {},
        _ => {},
    }
}

/// Reading back the register code of a variant gives that variant.
pub proof fn lemma_alarm_warning_recirculation_pump_value_roundtrip(variant: AlarmWarningRecirculationPump)
    ensures
        AlarmWarningRecirculationPump::spec_from_repr(variant.spec_value()) == Option::Some(variant),
{
    if variant.spec_value() < 32 {
        lemma_alarm_warning_recirculation_pump_value_roundtrip_from_0(variant);
    } else if variant.spec_value() < 64 {
        lemma_alarm_warning_recirculation_pump_value_roundtrip_from_32(variant);
    } else if variant.spec_value() < 96 {
        lemma_alarm_warning_recirculation_pump_value_roundtrip_from_64(variant);
    } else if variant.spec_value() < 128 {
        lemma_alarm_warning_recirculation_pump_value_roundtrip_from_96(variant);
    } else if variant.spec_value() < 160 {
        lemma_alarm_warning_recirculation_pump_value_roundtrip_from_128(variant);
    } else if variant.spec_value() < 192 {
        lemma_alarm_warning_recirculation_pump_value_roundtrip_from_160(variant);
    } else if variant.spec_value() < 224 {
        lemma_alarm_warning_recirculation_pump_value_roundtrip_from_192(variant);
    } else {
        lemma_alarm_warning_recirculation_pump_value_roundtrip_from_224(variant);
    }
}

/// A register code that names a variant is that variant's code.
pub proof fn lemma_alarm_warning_recirculation_pump_code_roundtrip(value: u8)
    ensures
        AlarmWarningRecirculationPump::spec_from_repr(value) matches Option::Some(found) ==> found.spec_value() == value,
{
    if value < 32 {
        lemma_alarm_warning_recirculation_pump_code_roundtrip_from_0(value);
    } else if value < 64 {
        lemma_alarm_warning_recirculation_pump_code_roundtrip_from_32(value);
    } else if value < 96 {
        lemma_alarm_warning_recirculation_pump_code_roundtrip_from_64(value);
    } else if value < 128 {
        lemma_alarm_warning_recirculation_pump_code_roundtrip_from_96(value);
    } else if value < 160 {
        lemma_alarm_warning_recirculation_pump_code_roundtrip_from_128(value);
    } else if value < 192 {
        lemma_alarm_warning_recirculation_pump_code_roundtrip_from_160(value);
    } else if value < 224 {
        lemma_alarm_warning_recirculation_pump_code_roundtrip_from_192(value);
    } else {
        lemma_alarm_warning_recirculation_pump_code_roundtrip_from_224(value);
    }
}

/// Bits of the pump identifiers in the recirculation pump's pump registers.
#[derive(Debug, Clone, Copy, PartialEq, Eq, Structural)]
pub enum PumpIdRecirculationPump {
    Pump1,
    Pump2,
    Pump3,
    Pump4,
    Pump5,
    Pump6,
    PilotPump,
    BackupPump,
}

impl PumpIdRecirculationPump {
    /// The bit position of this variant.
    pub open spec fn spec_value(self) -> u8 {
        match self {
            PumpIdRecirculationPump::Pump1 => 0,
            PumpIdRecirculationPump::Pump2 => 1,
            PumpIdRecirculationPump::Pump3 => 2,
            PumpIdRecirculationPump::Pump4 => 3,
            PumpIdRecirculationPump::Pump5 => 4,
            PumpIdRecirculationPump::Pump6 => 5,
            PumpIdRecirculationPump::PilotPump => 6,
            PumpIdRecirculationPump::BackupPump => 7,
        }
    }

    /// The bit position of this variant.
    pub fn value(&self) -> (value: u8)
        ensures
            value == self.spec_value(),
    {
        match self {
            PumpIdRecirculationPump::Pump1 => 0,
            PumpIdRecirculationPump::Pump2 => 1,
            PumpIdRecirculationPump::Pump3 => 2,
            PumpIdRecirculationPump::Pump4 => 3,
            PumpIdRecirculationPump::Pump5 => 4,
            PumpIdRecirculationPump::Pump6 => 5,
            PumpIdRecirculationPump::PilotPump => 6,
            PumpIdRecirculationPump::BackupPump => 7,
        }
    }

    /// The mask of this variant's bit: 1 shifted left by its position.
    pub open spec fn spec_bit_value(self) -> u8 {
        1u8 << self.spec_value()
    }

    /// The mask of this variant's bit: 1 shifted left by its position.
    pub fn bit_value(&self) -> (mask: u8)
        ensures
            mask == self.spec_bit_value(),
    {
        1u8 << self.value()
    }
}

/// Bits of the recirculation pump's active system functions register.
#[derive(Debug, Clone, Copy, PartialEq, Eq, Structural)]
pub enum SystemActiveFunctionRecirculationPump {
    NoFunction,
    EmergencyRunActive,
    StandbyPumpsActive,
    PumpTestRunActive,
    AlternativeSetpointActive,
    ClockProgramActive,
    /// VNC: Virtual network connection
    RemoteVncActive,
    RemoteBusActive,
    RemoteServicePortActive,
    PressureReliefActive,
    SoftPressureActive,
    LowFlowBoostActive,
    LowFlowStopActive,
    ProportionalPressureActive,
    Spare14,
    Spare15,
}

impl SystemActiveFunctionRecirculationPump {
    /// The bit position of this variant.
    pub open spec fn spec_value(self) -> u16 {
        match self {
            SystemActiveFunctionRecirculationPump::NoFunction => 0,
            SystemActiveFunctionRecirculationPump::EmergencyRunActive => 1,
            SystemActiveFunctionRecirculationPump::StandbyPumpsActive => 2,
            SystemActiveFunctionRecirculationPump::PumpTestRunActive => 3,
            SystemActiveFunctionRecirculationPump::AlternativeSetpointActive => 4,
            SystemActiveFunctionRecirculationPump::ClockProgramActive => 5,
            SystemActiveFunctionRecirculationPump::RemoteVncActive => 6,
            SystemActiveFunctionRecirculationPump::RemoteBusActive => 7,
            SystemActiveFunctionRecirculationPump::RemoteServicePortActive => 8,
            SystemActiveFunctionRecirculationPump::PressureReliefActive => 9,
            SystemActiveFunctionRecirculationPump::SoftPressureActive => 10,
            SystemActiveFunctionRecirculationPump::LowFlowBoostActive => 11,
            SystemActiveFunctionRecirculationPump::LowFlowStopActive => 12,
            SystemActiveFunctionRecirculationPump::ProportionalPressureActive => 13,
            SystemActiveFunctionRecirculationPump::Spare14 => 14,
            SystemActiveFunctionRecirculationPump::Spare15 => 15,
        }
    }

    /// The bit position of this variant.
    pub fn value(&self) -> (value: u16)
        ensures
            value == self.spec_value(),
    {
        match self {
            SystemActiveFunctionRecirculationPump::NoFunction => 0,
            SystemActiveFunctionRecirculationPump::EmergencyRunActive => 1,
            SystemActiveFunctionRecirculationPump::StandbyPumpsActive => 2,
            SystemActiveFunctionRecirculationPump::PumpTestRunActive => 3,
            SystemActiveFunctionRecirculationPump::AlternativeSetpointActive => 4,
            SystemActiveFunctionRecirculationPump::ClockProgramActive => 5,
            SystemActiveFunctionRecirculationPump::RemoteVncActive => 6,
            SystemActiveFunctionRecirculationPump::RemoteBusActive => 7,
            SystemActiveFunctionRecirculationPump::RemoteServicePortActive => 8,
            SystemActiveFunctionRecirculationPump::PressureReliefActive => 9,
            SystemActiveFunctionRecirculationPump::SoftPressureActive => 10,
            SystemActiveFunctionRecirculationPump::LowFlowBoostActive => 11,
            SystemActiveFunctionRecirculationPump::LowFlowStopActive => 12,
            SystemActiveFunctionRecirculationPump::ProportionalPressureActive => 13,
            SystemActiveFunctionRecirculationPump::Spare14 => 14,
            SystemActiveFunctionRecirculationPump::Spare15 => 15,
        }
    }

    /// The mask of this variant's bit: 1 shifted left by its position.
    pub open spec fn spec_bit_value(self) -> u16 {
        1u16 << self.spec_value()
    }

    /// The mask of this variant's bit: 1 shifted left by its position.
    pub fn bit_value(&self) -> (mask: u16)
        ensures
            mask == self.spec_bit_value(),
    {
        1u16 << self.value()
    }
}

/// Digital outputs to module 6 (NI 9476), by their bit in the outputs word.
#[derive(Debug, Clone, Copy, PartialEq, Eq, Structural)]
pub enum DigitalOutput {
    /// Open the motor operated valve 1.
    OpenMov1,
    /// Open the motor operated valve 2.
    OpenMov2,
    /// Open the motor operated valve 3.
    OpenMov3,
    /// Open the motor operated valve 4.
    OpenMov4,
    /// Open the motor operated valve 5.
    OpenMov5,
    /// Power of the recirculation pump 1.
    PowerRecirculationPump1,
    /// Power of the recirculation pump 2.
    PowerRecirculationPump2,
    /// Power of the pier fan 1.
    PowerPierFan1,
    /// Power of the pier fan 2.
    PowerPierFan2,
    /// Power of the chiller 1.
    PowerChiller1,
    /// Power of the chiller 2.
    PowerChiller2,
}

impl DigitalOutput {
    /// The bit position of this variant.
    pub open spec fn spec_value(self) -> u32 {
        match self {
            DigitalOutput::OpenMov1 => 0,
            DigitalOutput::OpenMov2 => 1,
            DigitalOutput::OpenMov3 => 2,
            DigitalOutput::OpenMov4 => 3,
            DigitalOutput::OpenMov5 => 4,
            DigitalOutput::PowerRecirculationPump1 => 5,
            DigitalOutput::PowerRecirculationPump2 => 6,
            DigitalOutput::PowerPierFan1 => 7,
            DigitalOutput::PowerPierFan2 => 8,
            DigitalOutput::PowerChiller1 => 9,
            DigitalOutput::PowerChiller2 => 10,
        }
    }

    /// The bit position of this variant.
    pub fn value(&self) -> (value: u32)
        ensures
            value == self.spec_value(),
    {
        match self {
            DigitalOutput::OpenMov1 => 0,
            DigitalOutput::OpenMov2 => 1,
            DigitalOutput::OpenMov3 => 2,
            DigitalOutput::OpenMov4 => 3,
            DigitalOutput::OpenMov5 => 4,
            DigitalOutput::PowerRecirculationPump1 => 5,
            DigitalOutput::PowerRecirculationPump2 => 6,
            DigitalOutput::PowerPierFan1 => 7,
            DigitalOutput::PowerPierFan2 => 8,
            DigitalOutput::PowerChiller1 => 9,
            DigitalOutput::PowerChiller2 => 10,
        }
    }

    /// The mask of this variant's bit: 1 shifted left by its position.
    pub open spec fn spec_bit_value(self) -> u32 {
        1u32 << self.spec_value()
    }

    /// The mask of this variant's bit: 1 shifted left by its position.
    pub fn bit_value(&self) -> (mask: u32)
        ensures
            mask == self.spec_bit_value(),
    {
        1u32 << self.value()
    }
}

/// Digital inputs from module 4 (NI 9425), by their bit in the inputs word.
#[derive(Debug, Clone, Copy, PartialEq, Eq, Structural)]
pub enum DigitalInputMod4 {
    /// The motor operated valve 1 is open.
    OpenFeedbackMov1,
    /// The motor operated valve 1 is closed.
    CloseFeedbackMov1,
    /// The motor operated valve 2 is open.
    OpenFeedbackMov2,
    /// The motor operated valve 2 is closed.
    CloseFeedbackMov2,
    /// The motor operated valve 3 is open.
    OpenFeedbackMov3,
    /// The motor operated valve 3 is closed.
    CloseFeedbackMov3,
    /// The motor operated valve 4 is open.
    OpenFeedbackMov4,
    /// The motor operated valve 4 is closed.
    CloseFeedbackMov4,
    /// The motor operated valve 5 is open.
    OpenFeedbackMov5,
    /// The motor operated valve 5 is closed.
    CloseFeedbackMov5,
    /// Contactor K1 (recirculation pump 1) is closed.
    StatusK1,
    /// Contactor K2 (recirculation pump 2) is closed.
    StatusK2,
    /// Contactor K21 (chiller 1) is closed.
    StatusK21,
    /// Contactor K22 (chiller 2) is closed.
    StatusK22,
}

impl DigitalInputMod4 {
    /// The bit position of this variant.
    pub open spec fn spec_value(self) -> u32 {
        match self {
            DigitalInputMod4::OpenFeedbackMov1 => 0,
            DigitalInputMod4::CloseFeedbackMov1 => 1,
            DigitalInputMod4::OpenFeedbackMov2 => 2,
            DigitalInputMod4::CloseFeedbackMov2 => 3,
            DigitalInputMod4::OpenFeedbackMov3 => 4,
            DigitalInputMod4::CloseFeedbackMov3 => 5,
            DigitalInputMod4::OpenFeedbackMov4 => 6,
            DigitalInputMod4::CloseFeedbackMov4 => 7,
            DigitalInputMod4::OpenFeedbackMov5 => 8,
            DigitalInputMod4::CloseFeedbackMov5 => 9,
            DigitalInputMod4::StatusK1 => 10,
            DigitalInputMod4::StatusK2 => 11,
            DigitalInputMod4::StatusK21 => 12,
            DigitalInputMod4::StatusK22 => 13,
        }
    }

    /// The bit position of this variant.
    pub fn value(&self) -> (value: u32)
        ensures
            value == self.spec_value(),
    {
        match self {
            DigitalInputMod4::OpenFeedbackMov1 => 0,
            DigitalInputMod4::CloseFeedbackMov1 => 1,
            DigitalInputMod4::OpenFeedbackMov2 => 2,
            DigitalInputMod4::CloseFeedbackMov2 => 3,
            DigitalInputMod4::OpenFeedbackMov3 => 4,
            DigitalInputMod4::CloseFeedbackMov3 => 5,
            DigitalInputMod4::OpenFeedbackMov4 => 6,
            DigitalInputMod4::CloseFeedbackMov4 => 7,
            DigitalInputMod4::OpenFeedbackMov5 => 8,
            DigitalInputMod4::CloseFeedbackMov5 => 9,
            DigitalInputMod4::StatusK1 => 10,
            DigitalInputMod4::StatusK2 => 11,
            DigitalInputMod4::StatusK21 => 12,
            DigitalInputMod4::StatusK22 => 13,
        }
    }

    /// The mask of this variant's bit: 1 shifted left by its position.
    pub open spec fn spec_bit_value(self) -> u32 {
        1u32 << self.spec_value()
    }

    /// The mask of this variant's bit: 1 shifted left by its position.
    pub fn bit_value(&self) -> (mask: u32)
        ensures
            mask == self.spec_bit_value(),
    {
        1u32 << self.value()
    }
}

/// Digital inputs from module 7 (NI 9425), by their bit in the inputs word.
#[derive(Debug, Clone, Copy, PartialEq, Eq, Structural)]
pub enum DigitalInputMod7 {
    /// Contactor K3 (pier fan 1) is closed.
    StatusK3,
    /// Contactor K4 (pier fan 2) is closed.
    StatusK4,
}

impl DigitalInputMod7 {
    /// The bit position of this variant.
    pub open spec fn spec_value(self) -> u32 {
        match self {
            DigitalInputMod7::StatusK3 => 0,
            DigitalInputMod7::StatusK4 => 1,
        }
    }

    /// The bit position of this variant.
    pub fn value(&self) -> (value: u32)
        ensures
            value == self.spec_value(),
    {
        match self {
            DigitalInputMod7::StatusK3 => 0,
            DigitalInputMod7::StatusK4 => 1,
        }
    }

    /// The mask of this variant's bit: 1 shifted left by its position.
    pub open spec fn spec_bit_value(self) -> u32 {
        1u32 << self.spec_value()
    }

    /// The mask of this variant's bit: 1 shifted left by its position.
    pub fn bit_value(&self) -> (mask: u32)
        ensures
            mask == self.spec_bit_value(),
    {
        1u32 << self.value()
    }
}

/// Bits of the chiller's heartbeat register.
#[derive(Debug, Clone, Copy, PartialEq, Eq, Structural)]
pub enum HeartbeatChiller {
    /// Toggles every second.
    OneSecond,
    /// Toggles every two seconds.
    TwoSeconds,
    /// Toggles every four seconds.
    FourSeconds,
    /// Toggles every eight seconds.
    EightSeconds,
    /// Toggles every sixteen seconds.
    SixteenSeconds,
}

impl HeartbeatChiller {
    /// The bit position of this variant.
    pub open spec fn spec_value(self) -> u16 {
        match self {
            HeartbeatChiller::OneSecond => 0,
            HeartbeatChiller::TwoSeconds => 1,
            HeartbeatChiller::FourSeconds => 2,
            HeartbeatChiller::EightSeconds => 3,
            HeartbeatChiller::SixteenSeconds => 4,
        }
    }

    /// The bit position of this variant.
    pub fn value(&self) -> (value: u16)
        ensures
            value == self.spec_value(),
    {
        match self {
            HeartbeatChiller::OneSecond => 0,
            HeartbeatChiller::TwoSeconds => 1,
            HeartbeatChiller::FourSeconds => 2,
            HeartbeatChiller::EightSeconds => 3,
            HeartbeatChiller::SixteenSeconds => 4,
        }
    }

    /// The mask of this variant's bit: 1 shifted left by its position.
    pub open spec fn spec_bit_value(self) -> u16 {
        1u16 << self.spec_value()
    }

    /// The mask of this variant's bit: 1 shifted left by its position.
    pub fn bit_value(&self) -> (mask: u16)
        ensures
            mask == self.spec_bit_value(),
    {
        1u16 << self.value()
    }
}

/// Analog inputs from module 5 (NI 9207), by their channel.
#[derive(Debug, Clone, Copy, PartialEq, Eq, Structural)]
pub enum AnalogInput {
    /// Level sensor of the tank 1.
    ReadoutTank1,
    /// Level sensor of the tank 2.
    ReadoutTank2,
    /// Position of the pressure control valve 1.
    ReadoutPcv1,
    /// Position of the pressure control valve 2.
    ReadoutPcv2,
    /// Position of the control mixing valve 1.
    ReadoutCmv1,
    /// Position of the control mixing valve 2.
    ReadoutCmv2,
    /// Position of the control mixing valve 20.
    ReadoutCmv20,
}

impl AnalogInput {
    /// The channel of this variant.
    pub open spec fn spec_value(self) -> usize {
        match self {
            AnalogInput::ReadoutTank1 => 0,
            AnalogInput::ReadoutTank2 => 1,
            AnalogInput::ReadoutPcv1 => 2,
            AnalogInput::ReadoutPcv2 => 3,
            AnalogInput::ReadoutCmv1 => 4,
            AnalogInput::ReadoutCmv2 => 5,
            AnalogInput::ReadoutCmv20 => 6,
        }
    }

    /// The channel of this variant.
    pub fn value(&self) -> (value: usize)
        ensures
            value == self.spec_value(),
    {
        match self {
            AnalogInput::ReadoutTank1 => 0,
            AnalogInput::ReadoutTank2 => 1,
            AnalogInput::ReadoutPcv1 => 2,
            AnalogInput::ReadoutPcv2 => 3,
            AnalogInput::ReadoutCmv1 => 4,
            AnalogInput::ReadoutCmv2 => 5,
            AnalogInput::ReadoutCmv20 => 6,
        }
    }
}

/// Analog outputs to module 8 (NI 9264), by their channel.
#[derive(Debug, Clone, Copy, PartialEq, Eq, Structural)]
pub enum AnalogOutput {
    /// Command of the pressure control valve 1.
    CommandValuePcv1,
    /// Command of the pressure control valve 2.
    CommandValuePcv2,
    /// Command of the control mixing valve 1.
    CommandValueCmv1,
    /// Command of the control mixing valve 2.
    CommandValueCmv2,
    /// Command of the control mixing valve 20.
    CommandValueCmv20,
}

impl AnalogOutput {
    /// The channel of this variant.
    pub open spec fn spec_value(self) -> usize {
        match self {
            AnalogOutput::CommandValuePcv1 => 0,
            AnalogOutput::CommandValuePcv2 => 1,
            AnalogOutput::CommandValueCmv1 => 2,
            AnalogOutput::CommandValueCmv2 => 3,
            AnalogOutput::CommandValueCmv20 => 4,
        }
    }

    /// The channel of this variant.
    pub fn value(&self) -> (value: usize)
        ensures
            value == self.spec_value(),
    {
        match self {
            AnalogOutput::CommandValuePcv1 => 0,
            AnalogOutput::CommandValuePcv2 => 1,
            AnalogOutput::CommandValueCmv1 => 2,
            AnalogOutput::CommandValueCmv2 => 3,
            AnalogOutput::CommandValueCmv20 => 4,
        }
    }
}

} // verus!
