//! The main board: hardware-revision resolution, the per-slot resource
//! path tables, the module registry, and frame validation.
//!
//! Resolution maps one line of board-identity text to a hardware profile
//! (slot capacity, LED strategy, ADC strategy).  An unrecognized identity
//! fails fast with `ConfigurationError`, since later provisioning indexes
//! blindly by the resolved capacity.

use vstd::prelude::*;
use crate::error::PlatformError;
use crate::frame::{checksum, checksum_spec, frame_valid};
use crate::module::{GOcontrollModule, ModuleSlot};
use crate::text::str_eq;

verus! {

/// LED strategy of a board revision: one addressed bus device with one
/// register per colour channel (`Rukr`), or discrete digital outputs
/// (`Gpio`), or no controllable LEDs at all.
#[derive(Clone, Copy, Debug, PartialEq, Eq, Structural)]
pub enum LedControl {
    Unavailable,
    Rukr,
    Gpio,
}

/// The four ADC channels the board exposes.
#[derive(Clone, Copy, Debug, PartialEq, Eq, Structural)]
pub enum AdcChannel {
    K30,
    K15A,
    K15B,
    K15C,
}

impl AdcChannel {
    /// The channel-address byte written to the addressed converter before a
    /// conversion read.
    pub open spec fn code_spec(self) -> u8 {
        match self {
            AdcChannel::K30 => 0xf3,
            AdcChannel::K15A => 0xc3,
            AdcChannel::K15B => 0xd3,
            AdcChannel::K15C => 0xe3,
        }
    }

    #[verifier::when_used_as_spec(code_spec)]
    pub fn code(self) -> (r: u8)
        ensures
            r == self.code_spec(),
    {
        match self {
            AdcChannel::K30 => 0xf3,
            AdcChannel::K15A => 0xc3,
            AdcChannel::K15B => 0xd3,
            AdcChannel::K15C => 0xe3,
        }
    }
}

/// The four enclosure status LEDs.
#[derive(Clone, Copy, Debug, PartialEq, Eq, Structural)]
pub enum EnclosureLed {
    Led1,
    Led2,
    Led3,
    Led4,
}

impl EnclosureLed {
    /// The LED's ordinal, used to derive register addresses and path-table
    /// indices.
    pub open spec fn code_spec(self) -> u8 {
        match self {
            EnclosureLed::Led1 => 0,
            EnclosureLed::Led2 => 1,
            EnclosureLed::Led3 => 2,
            EnclosureLed::Led4 => 3,
        }
    }

    #[verifier::when_used_as_spec(code_spec)]
    pub fn code(self) -> (r: u8)
        ensures
            r == self.code_spec(),
    {
        match self {
            EnclosureLed::Led1 => 0,
            EnclosureLed::Led2 => 1,
            EnclosureLed::Led3 => 2,
            EnclosureLed::Led4 => 3,
        }
    }
}

/// ADC strategy of a board revision: one raw text-valued channel file per
/// logical channel (`Mcp3004`), or one shared addressed bus device
/// (`Ads1015`).
#[derive(Clone, Copy, Debug, PartialEq, Eq, Structural)]
pub enum AdcConverter {
    Unresolved,
    Mcp3004,
    Ads1015,
}

/// The slot layout of a board revision.  Each layout exposes a fixed
/// number of usable module slots.
#[derive(Clone, Copy, Debug, PartialEq, Eq, Structural)]
pub enum ModuleLayout {
    Unresolved,
    ModulineIV,
    ModulineMini,
    ModulineDisplay,
}

impl ModuleLayout {
    /// The slot capacity of the layout: modules may claim slots
    /// `0 .. capacity` only.
    pub open spec fn capacity_spec(self) -> u8 {
        match self {
            ModuleLayout::Unresolved => 0,
            ModuleLayout::ModulineIV => 7,
            ModuleLayout::ModulineMini => 3,
            ModuleLayout::ModulineDisplay => 1,
        }
    }

    #[verifier::when_used_as_spec(capacity_spec)]
    pub fn capacity(self) -> (r: u8)
        ensures
            r == self.capacity_spec(),
    {
        match self {
            ModuleLayout::Unresolved => 0,
            ModuleLayout::ModulineIV => 7,
            ModuleLayout::ModulineMini => 3,
            ModuleLayout::ModulineDisplay => 1,
        }
    }
}

/// Everything revision resolution decides: the slot layout, the LED
/// strategy and the ADC strategy.  Resolved once, immutable afterward.
#[derive(Clone, Copy, Debug, PartialEq, Eq, Structural)]
pub struct HardwareProfile {
    pub module_layout: ModuleLayout,
    pub led_control: LedControl,
    pub adc: AdcConverter,
}

/// The fixed table from board-identity text to hardware profile.  An
/// identity outside the table resolves to nothing.
pub open spec fn profile_of(id: Seq<char>) -> Option<HardwareProfile> {
    if id == "Moduline IV V3.06"@ {
        Some(
            HardwareProfile {
                module_layout: ModuleLayout::ModulineIV,
                led_control: LedControl::Rukr,
                adc: AdcConverter::Mcp3004,
            },
        )
    } else if id == "Moduline Mini V1.11"@ {
        Some(
            HardwareProfile {
                module_layout: ModuleLayout::ModulineMini,
                led_control: LedControl::Rukr,
                adc: AdcConverter::Mcp3004,
            },
        )
    } else if id == "Moduline Screen V1.04"@ {
        Some(
            HardwareProfile {
                module_layout: ModuleLayout::ModulineDisplay,
                led_control: LedControl::Rukr,
                adc: AdcConverter::Mcp3004,
            },
        )
    } else if id == "Moduline IV V3.00"@ || id == "Moduline IV V3.01"@ {
        Some(
            HardwareProfile {
                module_layout: ModuleLayout::ModulineIV,
                led_control: LedControl::Gpio,
                adc: AdcConverter::Ads1015,
            },
        )
    } else if id == "Moduline IV V3.02"@ || id == "Moduline IV V3.03"@ || id
        == "Moduline IV V3.04"@ || id == "Moduline IV V3.05"@ {
        Some(
            HardwareProfile {
                module_layout: ModuleLayout::ModulineIV,
                led_control: LedControl::Rukr,
                adc: AdcConverter::Ads1015,
            },
        )
    } else if id == "Moduline Mini V1.03"@ {
        Some(
            HardwareProfile {
                module_layout: ModuleLayout::ModulineMini,
                led_control: LedControl::Rukr,
                adc: AdcConverter::Ads1015,
            },
        )
    } else if id == "Moduline Mini V1.05"@ || id == "Moduline Mini V1.06"@ || id
        == "Moduline Mini V1.07"@ {
        Some(
            HardwareProfile {
                module_layout: ModuleLayout::ModulineMini,
                led_control: LedControl::Rukr,
                adc: AdcConverter::Mcp3004,
            },
        )
    } else if id == "Moduline Mini V1.10"@ {
        Some(
            HardwareProfile {
                module_layout: ModuleLayout::ModulineMini,
                led_control: LedControl::Unavailable,
                adc: AdcConverter::Mcp3004,
            },
        )
    } else if id == "Moduline Screen V1.02"@ || id == "Moduline Screen V1.03"@ || id
        == "Moduline Screen V1.05"@ {
        Some(
            HardwareProfile {
                module_layout: ModuleLayout::ModulineDisplay,
                led_control: LedControl::Unavailable,
                adc: AdcConverter::Mcp3004,
            },
        )
    } else {
        None
    }
}

/// Matches one line of board-identity text against the revision table.
/// Exactly the identities of the table resolve; every other identity is
/// rejected with `ConfigurationError` rather than silently mapped to a
/// default layout.
pub fn resolve_hardware_profile(identity: &str) -> (r: Result<HardwareProfile, PlatformError>)
    ensures
        match profile_of(identity@) {
            Some(p) => r == Ok::<HardwareProfile, PlatformError>(p),
            None => r == Err::<HardwareProfile, PlatformError>(
                PlatformError::ConfigurationError,
            ),
        },
{
    if str_eq(identity, "Moduline IV V3.06") {
        Ok(
            HardwareProfile {
                module_layout: ModuleLayout::ModulineIV,
                led_control: LedControl::Rukr,
                adc: AdcConverter::Mcp3004,
            },
        )
    } else if str_eq(identity, "Moduline Mini V1.11") {
        Ok(
            HardwareProfile {
                module_layout: ModuleLayout::ModulineMini,
                led_control: LedControl::Rukr,
                adc: AdcConverter::Mcp3004,
            },
        )
    } else if str_eq(identity, "Moduline Screen V1.04") {
        Ok(
            HardwareProfile {
                module_layout: ModuleLayout::ModulineDisplay,
                led_control: LedControl::Rukr,
                adc: AdcConverter::Mcp3004,
            },
        )
    } else if str_eq(identity, "Moduline IV V3.00") || str_eq(identity, "Moduline IV V3.01") {
        Ok(
            HardwareProfile {
                module_layout: ModuleLayout::ModulineIV,
                led_control: LedControl::Gpio,
                adc: AdcConverter::Ads1015,
            },
        )
    } else if str_eq(identity, "Moduline IV V3.02") || str_eq(identity, "Moduline IV V3.03")
        || str_eq(identity, "Moduline IV V3.04") || str_eq(identity, "Moduline IV V3.05") {
        Ok(
            HardwareProfile {
                module_layout: ModuleLayout::ModulineIV,
                led_control: LedControl::Rukr,
                adc: AdcConverter::Ads1015,
            },
        )
    } else if str_eq(identity, "Moduline Mini V1.03") {
        Ok(
            HardwareProfile {
                module_layout: ModuleLayout::ModulineMini,
                led_control: LedControl::Rukr,
                adc: AdcConverter::Ads1015,
            },
        )
    } else if str_eq(identity, "Moduline Mini V1.05") || str_eq(identity, "Moduline Mini V1.06")
        || str_eq(identity, "Moduline Mini V1.07") {
        Ok(
            HardwareProfile {
                module_layout: ModuleLayout::ModulineMini,
                led_control: LedControl::Rukr,
                adc: AdcConverter::Mcp3004,
            },
        )
    } else if str_eq(identity, "Moduline Mini V1.10") {
        Ok(
            HardwareProfile {
                module_layout: ModuleLayout::ModulineMini,
                led_control: LedControl::Unavailable,
                adc: AdcConverter::Mcp3004,
            },
        )
    } else if str_eq(identity, "Moduline Screen V1.02") || str_eq(identity, "Moduline Screen V1.03")
        || str_eq(identity, "Moduline Screen V1.05") {
        Ok(
            HardwareProfile {
                module_layout: ModuleLayout::ModulineDisplay,
                led_control: LedControl::Unavailable,
                adc: AdcConverter::Mcp3004,
            },
        )
    } else {
        Err(PlatformError::ConfigurationError)
    }
}

/// Number of physical slot positions a board can at most expose; the
/// resource path tables have one entry per position.
pub const SLOT_POSITIONS: usize = 8;

/// The main board: the resolved hardware profile and the slot-occupancy
/// registry.  The bus and reset-line OS handles provisioned from the path
/// tables live with the embedding application.
pub struct MainBoard {
    pub led_control: LedControl,
    pub adc: AdcConverter,
    pub module_layout: ModuleLayout,
    /// Slot occupancy: entry `s` is `Some(s)` once a module claimed slot
    /// `s`, `None` while the slot is free.
    pub modules: Vec<Option<usize>>,
}

/// One registration step against the occupancy table: rejects a slot at or
/// beyond the capacity, then a slot already taken, and otherwise claims the
/// slot.
pub open spec fn register_step(occ: Seq<Option<usize>>, cap: int, slot: int) -> (Seq<
    Option<usize>,
>, Result<(), PlatformError>) {
    if slot >= cap {
        (occ, Err(PlatformError::SlotOutOfRange))
    } else if occ[slot] is Some {
        (occ, Err(PlatformError::SlotConflict))
    } else {
        (occ.update(slot, Some(slot as usize)), Ok(()))
    }
}

/// Registration of a whole module list, stopping at the first failure.
pub open spec fn register_all(occ: Seq<Option<usize>>, cap: int, slots: Seq<ModuleSlot>) -> (Seq<
    Option<usize>,
>, Result<(), PlatformError>)
    decreases slots.len(),
{
    if slots.len() == 0 {
        (occ, Ok(()))
    } else {
        let head = register_step(occ, cap, slots[0].code_spec() as int);
        if head.1 is Err {
            head
        } else {
            register_all(head.0, cap, slots.drop_first())
        }
    }
}

impl MainBoard {
    /// The occupancy table always has one entry per physical slot position.
    pub open spec fn wf(self) -> bool {
        self.modules@.len() == SLOT_POSITIONS
    }

    /// A new board with nothing resolved and every slot free.
    pub fn new() -> (r: MainBoard)
        ensures
            r.wf(),
            r.module_layout == ModuleLayout::Unresolved,
            r.led_control == LedControl::Unavailable,
            r.adc == AdcConverter::Unresolved,
            forall|s: int| 0 <= s < SLOT_POSITIONS ==> r.modules@[s] is None,
    {
        let mut modules: Vec<Option<usize>> = Vec::new();
        let mut i: usize = 0;
        while i < SLOT_POSITIONS
            invariant
                i == modules@.len(),
                i <= SLOT_POSITIONS,
                forall|s: int| 0 <= s < i ==> modules@[s] is None,
            decreases SLOT_POSITIONS - i,
        {
            modules.push(None);
            i += 1;
        }
        MainBoard {
            led_control: LedControl::Unavailable,
            adc: AdcConverter::Unresolved,
            module_layout: ModuleLayout::Unresolved,
            modules,
        }
    }

    /// Resolves the board's hardware revision from one line of identity
    /// text and stores the profile.  On an unknown identity the board is
    /// left untouched and `ConfigurationError` is returned.
    pub fn get_hardware_config(&mut self, identity: &str) -> (r: Result<(), PlatformError>)
        ensures
            match profile_of(identity@) {
                Some(p) => r == Ok::<(), PlatformError>(())
                    && final(self).module_layout == p.module_layout
                    && final(self).led_control == p.led_control
                    && final(self).adc == p.adc
                    && final(self).modules@ == old(self).modules@,
                None => r == Err::<(), PlatformError>(PlatformError::ConfigurationError)
                    && *final(self) == *old(self),
            },
    {
        match resolve_hardware_profile(identity) {
            Ok(profile) => {
                self.module_layout = profile.module_layout;
                self.led_control = profile.led_control;
                self.adc = profile.adc;
                Ok(())
            },
            Err(e) => Err(e),
        }
    }

    /// Claims `slot` in the registry: `SlotOutOfRange` when the slot lies
    /// at or beyond the resolved capacity, `SlotConflict` when another
    /// module holds it already, and success otherwise.
    pub fn register_slot(&mut self, slot: ModuleSlot) -> (r: Result<(), PlatformError>)
        requires
            old(self).wf(),
        ensures
            final(self).wf(),
            final(self).module_layout == old(self).module_layout,
            final(self).led_control == old(self).led_control,
            final(self).adc == old(self).adc,
            (final(self).modules@, r) == register_step(
                old(self).modules@,
                old(self).module_layout.capacity_spec() as int,
                slot.code_spec() as int,
            ),
    {
        let s = slot.code() as usize;
        if s >= self.module_layout.capacity() as usize {
            Err(PlatformError::SlotOutOfRange)
        } else if self.modules[s].is_some() {
            Err(PlatformError::SlotConflict)
        } else {
            self.modules.set(s, Some(s));
            Ok(())
        }
    }

    /// Registers one module by its declared slot, before any bus I/O
    /// touches that slot.  This is what keeps two modules from silently
    /// sharing one physical handle.
    pub fn check_module<M: GOcontrollModule>(&mut self, module: &M) -> (r: Result<
        (),
        PlatformError,
    >)
        requires
            old(self).wf(),
        ensures
            final(self).wf(),
            final(self).module_layout == old(self).module_layout,
            final(self).led_control == old(self).led_control,
            final(self).adc == old(self).adc,
            (final(self).modules@, r) == register_step(
                old(self).modules@,
                old(self).module_layout.capacity_spec() as int,
                module.slot_spec().code_spec() as int,
            ),
    {
        let slot = module.get_slot();
        self.register_slot(slot)
    }

    /// Registers every module of a board, in order, stopping at the first
    /// failure.  Runs before any resource is opened and before any bus
    /// I/O: a slot conflict or an out-of-range slot aborts initialization
    /// with nothing transferred.
    pub fn register_modules(&mut self, slots: &Vec<ModuleSlot>) -> (r: Result<(), PlatformError>)
        requires
            old(self).wf(),
        ensures
            final(self).wf(),
            final(self).module_layout == old(self).module_layout,
            final(self).led_control == old(self).led_control,
            final(self).adc == old(self).adc,
            (final(self).modules@, r) == register_all(
                old(self).modules@,
                old(self).module_layout.capacity_spec() as int,
                slots@,
            ),
    {
        let ghost cap = old(self).module_layout.capacity_spec() as int;
        proof {
            assert(slots@.skip(0) =~= slots@);
        }
        let mut i: usize = 0;
        while i < slots.len()
            invariant
                old(self).wf(),
                self.wf(),
                i <= slots@.len(),
                self.module_layout == old(self).module_layout,
                self.led_control == old(self).led_control,
                self.adc == old(self).adc,
                cap == old(self).module_layout.capacity_spec() as int,
                register_all(old(self).modules@, cap, slots@) == register_all(
                    self.modules@,
                    cap,
                    slots@.skip(i as int),
                ),
            decreases slots@.len() - i,
        {
            let ghost before = self.modules@;
            let r = self.register_slot(slots[i]);
            proof {
                assert(slots@.skip(i as int)[0] == slots@[i as int]);
                assert(slots@.skip(i as int).drop_first() =~= slots@.skip(i as int + 1));
            }
            if let Err(e) = r {
                proof {
                    assert(register_all(self.modules@, cap, slots@.skip(i as int)) == (
                        self.modules@,
                        Err::<(), PlatformError>(e),
                    ));
                }
                return Err(e);
            }
            i += 1;
        }
        proof {
            assert(slots@.skip(i as int) =~= Seq::<ModuleSlot>::empty());
        }
        Ok(())
    }

    /// Recomputes and checks the checksum of a frame of message length
    /// `length`, as done on every received frame.  Returns the checksum
    /// when it matches the frame's last message byte, and
    /// `DataIntegrityError` when it does not; retry policy belongs to the
    /// caller.
    pub fn module_checksum(data: &[u8], length: usize) -> (r: Result<u8, PlatformError>)
        requires
            1 <= length <= data@.len(),
        ensures
            match r {
                Ok(c) => frame_valid(data@, length as int) && c == checksum_spec(
                    data@,
                    length - 1,
                ),
                Err(e) => e == PlatformError::DataIntegrityError && !frame_valid(
                    data@,
                    length as int,
                ),
            },
    {
        let check_sum = checksum(data, length);
        if check_sum == data[length - 1] {
            Ok(check_sum)
        } else {
            Err(PlatformError::DataIntegrityError)
        }
    }
}

/// The fixed table from slot position to bus device path.
pub open spec fn spidev_path_spec(slot: int) -> Seq<char> {
    if slot == 0 {
        "/dev/spidev1.0"@
    } else if slot == 1 {
        "/dev/spidev1.1"@
    } else if slot == 2 {
        "/dev/spidev2.0"@
    } else if slot == 3 {
        "/dev/spidev2.1"@
    } else if slot == 4 {
        "/dev/spidev2.2"@
    } else if slot == 5 {
        "/dev/spidev2.3"@
    } else if slot == 6 {
        "/dev/spidev0.0"@
    } else {
        "/dev/spidev0.1"@
    }
}

/// Bus device path of a slot position.
pub fn spidev_path(slot: usize) -> (r: &'static str)
    requires
        slot < SLOT_POSITIONS,
    ensures
        r@ == spidev_path_spec(slot as int),
{
    if slot == 0 {
        "/dev/spidev1.0"
    } else if slot == 1 {
        "/dev/spidev1.1"
    } else if slot == 2 {
        "/dev/spidev2.0"
    } else if slot == 3 {
        "/dev/spidev2.1"
    } else if slot == 4 {
        "/dev/spidev2.2"
    } else if slot == 5 {
        "/dev/spidev2.3"
    } else if slot == 6 {
        "/dev/spidev0.0"
    } else {
        "/dev/spidev0.1"
    }
}

/// The fixed table from slot position to reset-line path.
pub open spec fn reset_path_spec(slot: int) -> Seq<char> {
    if slot == 0 {
        "/sys/class/leds/ResetM-1/brightness"@
    } else if slot == 1 {
        "/sys/class/leds/ResetM-2/brightness"@
    } else if slot == 2 {
        "/sys/class/leds/ResetM-3/brightness"@
    } else if slot == 3 {
        "/sys/class/leds/ResetM-4/brightness"@
    } else if slot == 4 {
        "/sys/class/leds/ResetM-5/brightness"@
    } else if slot == 5 {
        "/sys/class/leds/ResetM-6/brightness"@
    } else if slot == 6 {
        "/sys/class/leds/ResetM-7/brightness"@
    } else {
        "/sys/class/leds/ResetM-8/brightness"@
    }
}

/// Reset-line path of a slot position.
pub fn reset_path(slot: usize) -> (r: &'static str)
    requires
        slot < SLOT_POSITIONS,
    ensures
        r@ == reset_path_spec(slot as int),
{
    if slot == 0 {
        "/sys/class/leds/ResetM-1/brightness"
    } else if slot == 1 {
        "/sys/class/leds/ResetM-2/brightness"
    } else if slot == 2 {
        "/sys/class/leds/ResetM-3/brightness"
    } else if slot == 3 {
        "/sys/class/leds/ResetM-4/brightness"
    } else if slot == 4 {
        "/sys/class/leds/ResetM-5/brightness"
    } else if slot == 5 {
        "/sys/class/leds/ResetM-6/brightness"
    } else if slot == 6 {
        "/sys/class/leds/ResetM-7/brightness"
    } else {
        "/sys/class/leds/ResetM-8/brightness"
    }
}

} // verus!
