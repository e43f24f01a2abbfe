//! Configuration values of the audio digital filter, and the register field
//! values they select.
use vstd::prelude::*;

pub mod sound_activity_detector;

verus! {

/// Errors of the audio digital filter.
#[derive(Clone, Copy, Debug, PartialEq, Eq, Structural)]
pub enum Error {
    NotATransmitter,
    NotAReceiver,
    OverrunError,
}

/// Acquisition mode of a digital filter.
#[derive(Clone, Copy, Debug, PartialEq, Eq, Structural)]
pub enum AcquisitionMode {
    AsynchronousContinuous,
    AsynchronousSingleShot,
    SynchronousContinuous,
    SynchonousSingleShot,
    WindowContinuous,
}

/// The ACQMOD field value that selects each acquisition mode of a digital filter.
pub open spec fn acquisition_mode_code(v: AcquisitionMode) -> u32 {
    match v {
        AcquisitionMode::AsynchronousContinuous => 0,
        AcquisitionMode::AsynchronousSingleShot => 1,
        AcquisitionMode::SynchronousContinuous => 2,
        AcquisitionMode::SynchonousSingleShot => 3,
        AcquisitionMode::WindowContinuous => 4,
    }
}

impl AcquisitionMode {
    /// The ACQMOD field value.
    pub fn val(&self) -> (r: u32)
        ensures
            r == acquisition_mode_code(*self),
    {
        match self {
            AcquisitionMode::AsynchronousContinuous => 0,
            AcquisitionMode::AsynchronousSingleShot => 1,
            AcquisitionMode::SynchronousContinuous => 2,
            AcquisitionMode::SynchonousSingleShot => 3,
            AcquisitionMode::WindowContinuous => 4,
        }
    }
}
/// Fill level of the receive FIFO that raises an event.
#[derive(Clone, Copy, Debug, PartialEq, Eq, Structural)]
pub enum ReceiveFifoThreshold {
    NotEmpty,
    HalfFull,
}

/// The FTH field value that selects each fill level of the receive FIFO that raises an event.
pub open spec fn receive_fifo_threshold_code(v: ReceiveFifoThreshold) -> u32 {
    match v {
        ReceiveFifoThreshold::NotEmpty => 0,
        ReceiveFifoThreshold::HalfFull => 1,
    }
}

impl ReceiveFifoThreshold {
    /// The FTH field value.
    pub fn val(&self) -> (r: u32)
        ensures
            r == receive_fifo_threshold_code(*self),
    {
        match self {
            ReceiveFifoThreshold::NotEmpty => 0,
            ReceiveFifoThreshold::HalfFull => 1,
        }
    }
}
/// Trigger edge.
#[derive(Clone, Copy, Debug, PartialEq, Eq, Structural)]
pub enum TriggerSensitivitySelection {
    RisingEdge,
    FallingEdge,
}

/// The TRGSENS field value that selects each trigger edge.
pub open spec fn trigger_sensitivity_selection_code(v: TriggerSensitivitySelection) -> u32 {
    match v {
        TriggerSensitivitySelection::RisingEdge => 0,
        TriggerSensitivitySelection::FallingEdge => 1,
    }
}

impl TriggerSensitivitySelection {
    /// The TRGSENS field value.
    pub fn val(&self) -> (r: u32)
        ensures
            r == trigger_sensitivity_selection_code(*self),
    {
        match self {
            TriggerSensitivitySelection::RisingEdge => 0,
            TriggerSensitivitySelection::FallingEdge => 1,
        }
    }
}
/// Whether the filter drives the interface clocks.
#[derive(Clone, Copy, Debug, PartialEq, Eq, Structural)]
pub enum Mode {
    Master,
    Slave,
}

/// Direction of a clock pin.
#[derive(Clone, Copy, Debug, PartialEq, Eq, Structural)]
pub enum ClockDirection {
    Input,
    Output,
}

/// The CCKDIR field value that selects each direction of a clock pin.
pub open spec fn clock_direction_code(v: ClockDirection) -> u32 {
    match v {
        ClockDirection::Input => 0,
        ClockDirection::Output => 1,
    }
}

impl ClockDirection {
    /// The CCKDIR field value.
    pub fn val(&self) -> (r: u32)
        ensures
            r == clock_direction_code(*self),
    {
        match self {
            ClockDirection::Input => 0,
            ClockDirection::Output => 1,
        }
    }
}
/// Start mode of the clock generator.
#[derive(Clone, Copy, Debug, PartialEq, Eq, Structural)]
pub enum ClockGeneratorMode {
    Immediate,
    Trigger,
}

/// The CKGMOD field value that selects each start mode of the clock generator.
pub open spec fn clock_generator_mode_code(v: ClockGeneratorMode) -> u32 {
    match v {
        ClockGeneratorMode::Immediate => 0,
        ClockGeneratorMode::Trigger => 1,
    }
}

impl ClockGeneratorMode {
    /// The CKGMOD field value.
    pub fn val(&self) -> (r: u32)
        ensures
            r == clock_generator_mode_code(*self),
    {
        match self {
            ClockGeneratorMode::Immediate => 0,
            ClockGeneratorMode::Trigger => 1,
        }
    }
}
/// Hangover time window, in frames.
#[derive(Clone, Copy, Debug, PartialEq, Eq, Structural)]
pub enum HangoverTimeWindow {
    Frames4,
    Frames8,
    Frames16,
    Frames32,
    Frames64,
    Frames128,
    Frames256,
    Frames512,
}

/// The HGOVR field value that selects each hangover time window, in frames.
pub open spec fn hangover_time_window_code(v: HangoverTimeWindow) -> u32 {
    match v {
        HangoverTimeWindow::Frames4 => 0,
        HangoverTimeWindow::Frames8 => 1,
        HangoverTimeWindow::Frames16 => 2,
        HangoverTimeWindow::Frames32 => 3,
        HangoverTimeWindow::Frames64 => 4,
        HangoverTimeWindow::Frames128 => 5,
        HangoverTimeWindow::Frames256 => 6,
        HangoverTimeWindow::Frames512 => 7,
    }
}

impl HangoverTimeWindow {
    /// The HGOVR field value.
    pub fn val(&self) -> (r: u32)
        ensures
            r == hangover_time_window_code(*self),
    {
        match self {
            HangoverTimeWindow::Frames4 => 0,
            HangoverTimeWindow::Frames8 => 1,
            HangoverTimeWindow::Frames16 => 2,
            HangoverTimeWindow::Frames32 => 3,
            HangoverTimeWindow::Frames64 => 4,
            HangoverTimeWindow::Frames128 => 5,
            HangoverTimeWindow::Frames256 => 6,
            HangoverTimeWindow::Frames512 => 7,
        }
    }
}
/// Number of frames used to learn the ambient noise.
#[derive(Clone, Copy, Debug, PartialEq, Eq, Structural)]
pub enum NoiseLearningFrames {
    Frames2,
    Frames4,
    Frames8,
    Frames16,
    Frames32,
}

/// The LFRNB field value that selects each number of frames used to learn the ambient noise.
pub open spec fn noise_learning_frames_code(v: NoiseLearningFrames) -> u32 {
    match v {
        NoiseLearningFrames::Frames2 => 0,
        NoiseLearningFrames::Frames4 => 1,
        NoiseLearningFrames::Frames8 => 2,
        NoiseLearningFrames::Frames16 => 3,
        NoiseLearningFrames::Frames32 => 4,
    }
}

impl NoiseLearningFrames {
    /// The LFRNB field value.
    pub fn val(&self) -> (r: u32)
        ensures
            r == noise_learning_frames_code(*self),
    {
        match self {
            NoiseLearningFrames::Frames2 => 0,
            NoiseLearningFrames::Frames4 => 1,
            NoiseLearningFrames::Frames8 => 2,
            NoiseLearningFrames::Frames16 => 3,
            NoiseLearningFrames::Frames32 => 4,
        }
    }
}
/// Signal-to-noise threshold of the sound activity detector.
#[derive(Clone, Copy, Debug, PartialEq, Eq, Structural)]
pub enum SignalToNoiseThreshold {
    LevelPlus3dot5dB,
    LevelPlus6dot0dB,
    LevelPlus9dot5dB,
    LevelPlus12dot0dB,
    LevelPlus15dot6dB,
    LevelPlus18dot0dB,
    LevelPlus21dot6dB,
    LevelPlus24dot1dB,
    LevelPlus27dot6dB,
    LevelPlus30dot1dB,
}

/// The SNTHR field value that selects each signal-to-noise threshold of the sound activity detector.
pub open spec fn signal_to_noise_threshold_code(v: SignalToNoiseThreshold) -> u32 {
    match v {
        SignalToNoiseThreshold::LevelPlus3dot5dB => 0,
        SignalToNoiseThreshold::LevelPlus6dot0dB => 1,
        SignalToNoiseThreshold::LevelPlus9dot5dB => 2,
        SignalToNoiseThreshold::LevelPlus12dot0dB => 3,
        SignalToNoiseThreshold::LevelPlus15dot6dB => 4,
        SignalToNoiseThreshold::LevelPlus18dot0dB => 5,
        SignalToNoiseThreshold::LevelPlus21dot6dB => 6,
        SignalToNoiseThreshold::LevelPlus24dot1dB => 7,
        SignalToNoiseThreshold::LevelPlus27dot6dB => 8,
        SignalToNoiseThreshold::LevelPlus30dot1dB => 9,
    }
}

impl SignalToNoiseThreshold {
    /// The SNTHR field value.
    pub fn val(&self) -> (r: u32)
        ensures
            r == signal_to_noise_threshold_code(*self),
    {
        match self {
            SignalToNoiseThreshold::LevelPlus3dot5dB => 0,
            SignalToNoiseThreshold::LevelPlus6dot0dB => 1,
            SignalToNoiseThreshold::LevelPlus9dot5dB => 2,
            SignalToNoiseThreshold::LevelPlus12dot0dB => 3,
            SignalToNoiseThreshold::LevelPlus15dot6dB => 4,
            SignalToNoiseThreshold::LevelPlus18dot0dB => 5,
            SignalToNoiseThreshold::LevelPlus21dot6dB => 6,
            SignalToNoiseThreshold::LevelPlus24dot1dB => 7,
            SignalToNoiseThreshold::LevelPlus27dot6dB => 8,
            SignalToNoiseThreshold::LevelPlus30dot1dB => 9,
        }
    }
}
/// Audio digital filter configuration.
#[non_exhaustive]
#[derive(Clone, Copy)]
pub struct Config {
    pub mode: Mode,
    /// Number of samples discarded when the filter restarts.
    pub number_discarded: u8,
    pub clock0_direction: ClockDirection,
    pub clock1_direction: ClockDirection,
    pub clock_generator_dividers: bool,
    pub sound_activity_detection: Option<sound_activity_detector::Config>,
}

impl Default for Config {
    fn default() -> (r: Config)
        ensures
            r.mode == Mode::Master,
            r.number_discarded == 0,
            r.clock0_direction == ClockDirection::Input,
            r.clock1_direction == ClockDirection::Input,
            !r.clock_generator_dividers,
            r.sound_activity_detection is None,
    {
        Config {
            mode: Mode::Master,
            number_discarded: 0,
            clock0_direction: ClockDirection::Input,
            clock1_direction: ClockDirection::Input,
            clock_generator_dividers: false,
            sound_activity_detection: None,
        }
    }
}

} // verus!
