use stm32_adc::adf::sound_activity_detector::{
    Config as SadConfig, DataCaptureMode, FrameSize, TriggerEventConfiguration, WorkingMode,
};
use stm32_adc::adf::{
    AcquisitionMode, ClockDirection, ClockGeneratorMode, Config, Error, HangoverTimeWindow, Mode,
    NoiseLearningFrames, ReceiveFifoThreshold, SignalToNoiseThreshold,
    TriggerSensitivitySelection,
};

#[test]
fn adf_field_values() {
    assert_eq!(AcquisitionMode::AsynchronousContinuous.val(), 0);
    assert_eq!(AcquisitionMode::WindowContinuous.val(), 4);
    assert_eq!(ReceiveFifoThreshold::HalfFull.val(), 1);
    assert_eq!(TriggerSensitivitySelection::FallingEdge.val(), 1);
    assert_eq!(ClockDirection::Output.val(), 1);
    assert_eq!(ClockGeneratorMode::Trigger.val(), 1);
    assert_eq!(HangoverTimeWindow::Frames512.val(), 7);
    assert_eq!(NoiseLearningFrames::Frames32.val(), 4);
    assert_eq!(SignalToNoiseThreshold::LevelPlus30dot1dB.val(), 9);
    assert_eq!(WorkingMode::AmbientNoiseEstimator.val(), 2);
    assert_eq!(FrameSize::Samples512.val(), 6);
    assert_eq!(TriggerEventConfiguration::EnerExitDetect.val(), 1);
    assert_eq!(DataCaptureMode::OnDetected.val(), 1);
}

#[test]
fn adf_default_config() {
    let c = Config::default();
    assert!(matches!(c.mode, Mode::Master));
    assert_eq!(c.number_discarded, 0);
    assert!(matches!(c.clock0_direction, ClockDirection::Input));
    assert!(matches!(c.clock1_direction, ClockDirection::Input));
    assert!(!c.clock_generator_dividers);
    assert!(c.sound_activity_detection.is_none());
    assert_ne!(Error::NotAReceiver, Error::OverrunError);
}

#[test]
fn sound_detector_config_bounds() {
    let mut c = SadConfig {
        working_mode: WorkingMode::SoundDetector,
        minimum_noise_level: 0x1fff,
        hangover_time_window: HangoverTimeWindow::Frames4,
        noise_learning_frames: NoiseLearningFrames::Frames2,
        ambient_noise_slope_control: 7,
        signal_to_noise_threshold: SignalToNoiseThreshold::LevelPlus3dot5dB,
        frame_size: FrameSize::Samples8,
        trigger_event_configuration: TriggerEventConfiguration::EnterMonitor,
        data_capture_mode: DataCaptureMode::Disabled,
    };
    assert!(c.is_valid());
    c.minimum_noise_level = 0x2000;
    assert!(!c.is_valid());
    c.minimum_noise_level = 0;
    c.ambient_noise_slope_control = 8;
    assert!(!c.is_valid());
}
