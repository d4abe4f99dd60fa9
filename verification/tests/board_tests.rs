use gocontroll_platform::error::PlatformError;
use gocontroll_platform::mainboard::{AdcConverter, HardwareProfile, LedControl, MainBoard,
    ModuleLayout, resolve_hardware_profile, reset_path, spidev_path};
use gocontroll_platform::module::{GOcontrollModule, ModuleSlot};
use gocontroll_platform::inputmodule6ch::{InputModule6Ch, InputModule6ChConfig,
    InputModule6ChFunction, InputModule6ChPullDown, InputModule6ChPullUp,
    InputModule6ChVoltageRange, InputModuleSupply, Inputmodule6chSupplyConfig};
use gocontroll_platform::inputmodule10ch::InputModule10Ch;
use gocontroll_platform::outputmodule6ch::{OutputModule6Ch, OutputModule6ChConfig,
    OutputModule6ChFrequecyConfig, OutputModule6ChFrequency, OutputModule6ChFunction};

#[test]
fn it_works() {
    let mut mainboard: MainBoard = MainBoard::new();
    let input_module: InputModule6Ch = InputModule6Ch::new(
        ModuleSlot::Moduleslot1,
        [
            Some(InputModule6ChConfig::new(
                InputModule6ChFunction::AnalogmV,
                InputModule6ChPullDown::PullDown10k,
                InputModule6ChPullUp::PulUpnNone,
                InputModule6ChVoltageRange::Voltage0_5V,
                0u8,
                10u16,
            )),
            None,
            None,
            None,
            None,
            None,
        ],
        Inputmodule6chSupplyConfig::new(
            InputModuleSupply::On,
            InputModuleSupply::On,
            InputModuleSupply::On,
        ),
    );
    let output_module: OutputModule6Ch = OutputModule6Ch::new(
        ModuleSlot::Moduleslot2,
        [
            Some(OutputModule6ChConfig::new(
                OutputModule6ChFunction::HalfBridge,
                Some(5000),
                None,
                None,
            )),
            None,
            None,
            None,
            None,
            None,
        ],
        OutputModule6ChFrequecyConfig::new(
            OutputModule6ChFrequency::Freq1KHz,
            OutputModule6ChFrequency::Freq1KHz,
            OutputModule6ChFrequency::Freq1KHz,
        ),
    );
    let input_module_10ch: InputModule10Ch = InputModule10Ch::new(
        ModuleSlot::Moduleslot3,
        [None, None, None, None, None, None, None, None, None, None],
        InputModuleSupply::On,
    );
    let slots = vec![
        input_module.get_slot(),
        output_module.get_slot(),
        input_module_10ch.get_slot(),
    ];
    let _ = mainboard.get_hardware_config("Moduline IV V3.06");
    let _ = mainboard.register_modules(&slots);

    // other initialisation
}

#[test]
fn profile_moduline_iv_v306() {
    let profile = resolve_hardware_profile("Moduline IV V3.06").unwrap();
    assert_eq!(profile.module_layout, ModuleLayout::ModulineIV);
    assert_eq!(profile.module_layout.capacity(), 7);
    assert_eq!(profile.led_control, LedControl::Rukr);
    assert_eq!(profile.adc, AdcConverter::Mcp3004);
}

#[test]
fn profile_table_entries() {
    assert_eq!(
        resolve_hardware_profile("Moduline IV V3.00").unwrap(),
        HardwareProfile {
            module_layout: ModuleLayout::ModulineIV,
            led_control: LedControl::Gpio,
            adc: AdcConverter::Ads1015,
        }
    );
    assert_eq!(
        resolve_hardware_profile("Moduline Mini V1.10").unwrap(),
        HardwareProfile {
            module_layout: ModuleLayout::ModulineMini,
            led_control: LedControl::Unavailable,
            adc: AdcConverter::Mcp3004,
        }
    );
    assert_eq!(
        resolve_hardware_profile("Moduline Screen V1.04").unwrap(),
        HardwareProfile {
            module_layout: ModuleLayout::ModulineDisplay,
            led_control: LedControl::Rukr,
            adc: AdcConverter::Mcp3004,
        }
    );
    assert_eq!(resolve_hardware_profile("Moduline Screen V1.05").unwrap().module_layout.capacity(), 1);
}

#[test]
fn unknown_identity_is_rejected() {
    assert_eq!(
        resolve_hardware_profile("Moduline IV V9.99"),
        Err(PlatformError::ConfigurationError)
    );
    assert_eq!(resolve_hardware_profile(""), Err(PlatformError::ConfigurationError));
    let mut board = MainBoard::new();
    assert_eq!(
        board.get_hardware_config("some unknown board"),
        Err(PlatformError::ConfigurationError)
    );
    assert_eq!(board.module_layout, ModuleLayout::Unresolved);
}

#[test]
fn second_module_on_same_slot_conflicts() {
    let mut board = MainBoard::new();
    board.get_hardware_config("Moduline IV V3.06").unwrap();
    assert_eq!(board.register_slot(ModuleSlot::Moduleslot2), Ok(()));
    assert_eq!(
        board.register_slot(ModuleSlot::Moduleslot2),
        Err(PlatformError::SlotConflict)
    );
}

#[test]
fn slot_beyond_capacity_is_out_of_range() {
    let mut board = MainBoard::new();
    board.get_hardware_config("Moduline IV V3.06").unwrap();
    // capacity 7: slots 0..6 are usable, the eighth slot is not
    assert_eq!(
        board.register_slot(ModuleSlot::Moduleslot8),
        Err(PlatformError::SlotOutOfRange)
    );
    assert_eq!(board.register_slot(ModuleSlot::Moduleslot7), Ok(()));

    let mut mini = MainBoard::new();
    mini.get_hardware_config("Moduline Mini V1.11").unwrap();
    assert_eq!(
        mini.register_slot(ModuleSlot::Moduleslot4),
        Err(PlatformError::SlotOutOfRange)
    );
    assert_eq!(mini.register_slot(ModuleSlot::Moduleslot3), Ok(()));
}

#[test]
fn init_reports_conflict_before_any_bus_io() {
    // Two modules both declared at slot 1: registration runs before any
    // resource is opened, and the conflict aborts initialization.
    let mut board = MainBoard::new();
    board.get_hardware_config("Moduline IV V3.06").unwrap();
    let slots = vec![ModuleSlot::Moduleslot1, ModuleSlot::Moduleslot1];
    assert_eq!(board.register_modules(&slots), Err(PlatformError::SlotConflict));
}

#[test]
fn register_modules_accepts_distinct_slots() {
    let mut board = MainBoard::new();
    board.get_hardware_config("Moduline IV V3.06").unwrap();
    let slots = vec![
        ModuleSlot::Moduleslot1,
        ModuleSlot::Moduleslot2,
        ModuleSlot::Moduleslot3,
    ];
    assert_eq!(board.register_modules(&slots), Ok(()));
    assert_eq!(board.modules[0], Some(0));
    assert_eq!(board.modules[1], Some(1));
    assert_eq!(board.modules[2], Some(2));
    assert_eq!(board.modules[3], None);
}

#[test]
fn path_tables_are_fixed() {
    assert_eq!(spidev_path(0), "/dev/spidev1.0");
    assert_eq!(spidev_path(7), "/dev/spidev0.1");
    assert_eq!(reset_path(0), "/sys/class/leds/ResetM-1/brightness");
    assert_eq!(reset_path(7), "/sys/class/leds/ResetM-8/brightness");
}

#[test]
fn slot_codes_and_descriptions() {
    assert_eq!(ModuleSlot::Moduleslot1.code(), 0);
    assert_eq!(ModuleSlot::Moduleslot8.code(), 7);
    assert_eq!(ModuleSlot::Moduleslot3.description(), "Module slot 3");
    assert_eq!(
        PlatformError::SlotConflict.description(),
        "two modules claim the same slot"
    );
}
