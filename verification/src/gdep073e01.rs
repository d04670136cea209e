//! Command protocol and power-state machine for the GDEP073E01 six-color
//! e-paper panel.
//!
//! Everything the panel is told is decided here, as verified command
//! scripts (an address byte plus its data bytes); the host program only
//! clocks the scripts out over the wire and reports back.  The typestate
//! wrapper enforces the panel's legal power sequencing: reset, then init,
//! then power on before a frame is sent and refreshed, with explicit
//! busy-wait states after the blocking operations.

use vstd::prelude::*;

use crate::displayinterface::DisplayInterfaceAsync;
use crate::spectra6::{spec_packed_frame, Spectra6Color, SpectraPacker};

verus! {

/// The panel's command addresses.
#[allow(non_camel_case_types)]
#[derive(Clone, Copy, PartialEq, Eq, Structural, Debug)]
pub enum Command {
    PanelSetting,
    PowerSetting,
    PowerOff,
    POFS,
    PowerOn,
    BoosterSoftStart1,
    BoosterSoftStart2,
    DeepSleep,
    BoosterSoftStart3,
    DataStartTransmission,
    DisplayRefresh,
    PllControl,
    CDI,
    TCON_SETTING,
    TRES,
    T_VDCS,
    PWS,
    CMDH,
}

/// The wire address of each panel command.
pub open spec fn spec_command_address(c: Command) -> u8 {
    match c {
        Command::PanelSetting => 0x00,
        Command::PowerSetting => 0x01,
        Command::PowerOff => 0x02,
        Command::POFS => 0x03,
        Command::PowerOn => 0x04,
        Command::BoosterSoftStart1 => 0x05,
        Command::BoosterSoftStart2 => 0x06,
        Command::DeepSleep => 0x07,
        Command::BoosterSoftStart3 => 0x08,
        Command::DataStartTransmission => 0x10,
        Command::DisplayRefresh => 0x12,
        Command::PllControl => 0x30,
        Command::CDI => 0x50,
        Command::TCON_SETTING => 0x60,
        Command::TRES => 0x61,
        Command::T_VDCS => 0x84,
        Command::PWS => 0xE3,
        Command::CMDH => 0xAA,
    }
}

impl crate::displayinterface::Command for Command {
    open spec fn spec_address(self) -> u8 {
        spec_command_address(self)
    }

    fn address(self) -> (r: u8) {
        match self {
            Command::PanelSetting => 0x00,
            Command::PowerSetting => 0x01,
            Command::PowerOff => 0x02,
            Command::POFS => 0x03,
            Command::PowerOn => 0x04,
            Command::BoosterSoftStart1 => 0x05,
            Command::BoosterSoftStart2 => 0x06,
            Command::DeepSleep => 0x07,
            Command::BoosterSoftStart3 => 0x08,
            Command::DataStartTransmission => 0x10,
            Command::DisplayRefresh => 0x12,
            Command::PllControl => 0x30,
            Command::CDI => 0x50,
            Command::TCON_SETTING => 0x60,
            Command::TRES => 0x61,
            Command::T_VDCS => 0x84,
            Command::PWS => 0xE3,
            Command::CMDH => 0xAA,
        }
    }
}

/// One scripted transfer: a command address and its data bytes.
pub struct ScriptStep {
    pub address: u8,
    pub data: Vec<u8>,
}

/// The reset pulse timings the panel needs, in microseconds: reset pin
/// high, then low, then high again.
#[derive(Clone, Copy, PartialEq, Eq, Structural, Debug)]
pub struct ResetTimings {
    pub initial_us: u32,
    pub duration_us: u32,
    pub settle_us: u32,
}

/// The full initialization script, as the panel's datasheet sequence.
pub open spec fn spec_init_script(s: Seq<ScriptStep>) -> bool {
    &&& s.len() == 13
    &&& s[0].address == 0xAA && s[0].data@ =~= seq![0x49u8, 0x55u8, 0x20u8, 0x08u8, 0x09u8, 0x18u8]
    &&& s[1].address == 0x01 && s[1].data@ =~= seq![0x3Fu8]
    &&& s[2].address == 0x00 && s[2].data@ =~= seq![0x5Fu8, 0x69u8]
    &&& s[3].address == 0x03 && s[3].data@ =~= seq![0x00u8, 0x54u8, 0x00u8, 0x44u8]
    &&& s[4].address == 0x05 && s[4].data@ =~= seq![0x40u8, 0x1Fu8, 0x1Fu8, 0x2Cu8]
    &&& s[5].address == 0x06 && s[5].data@ =~= seq![0x6Fu8, 0x1Fu8, 0x17u8, 0x49u8]
    &&& s[6].address == 0x08 && s[6].data@ =~= seq![0x6Fu8, 0x1Fu8, 0x1Fu8, 0x22u8]
    &&& s[7].address == 0x30 && s[7].data@ =~= seq![0x03u8]
    &&& s[8].address == 0x50 && s[8].data@ =~= seq![0x3Fu8]
    &&& s[9].address == 0x60 && s[9].data@ =~= seq![0x02u8, 0x00u8]
    &&& s[10].address == 0x61 && s[10].data@ =~= seq![0x03u8, 0x20u8, 0x01u8, 0xE0u8]
    &&& s[11].address == 0x84 && s[11].data@ =~= seq![0x01u8]
    &&& s[12].address == 0xE3 && s[12].data@ =~= seq![0x2Fu8]
}

/// Builds the panel's initialization script.
pub fn init_script() -> (r: Vec<ScriptStep>)
    ensures
        spec_init_script(r@),
{
    let mut s: Vec<ScriptStep> = Vec::new();
    s.push(ScriptStep { address: 0xAA, data: vec![0x49, 0x55, 0x20, 0x08, 0x09, 0x18] });
    s.push(ScriptStep { address: 0x01, data: vec![0x3F] });
    s.push(ScriptStep { address: 0x00, data: vec![0x5F, 0x69] });
    s.push(ScriptStep { address: 0x03, data: vec![0x00, 0x54, 0x00, 0x44] });
    s.push(ScriptStep { address: 0x05, data: vec![0x40, 0x1F, 0x1F, 0x2C] });
    s.push(ScriptStep { address: 0x06, data: vec![0x6F, 0x1F, 0x17, 0x49] });
    s.push(ScriptStep { address: 0x08, data: vec![0x6F, 0x1F, 0x1F, 0x22] });
    s.push(ScriptStep { address: 0x30, data: vec![0x03] });
    s.push(ScriptStep { address: 0x50, data: vec![0x3F] });
    s.push(ScriptStep { address: 0x60, data: vec![0x02, 0x00] });
    s.push(ScriptStep { address: 0x61, data: vec![0x03, 0x20, 0x01, 0xE0] });
    s.push(ScriptStep { address: 0x84, data: vec![0x01] });
    s.push(ScriptStep { address: 0xE3, data: vec![0x2F] });
    s
}

/// The reset pulse the panel needs: ten milliseconds per phase.
pub fn reset_timings() -> (r: ResetTimings)
    ensures
        r == (ResetTimings { initial_us: 10000, duration_us: 10000, settle_us: 10000 }),
{
    ResetTimings { initial_us: 10000, duration_us: 10000, settle_us: 10000 }
}

/// The driver for the GDEP073E01 panel: owns the pin interface; the
/// command traffic itself is decided by the scripts of this module.
pub struct Gdep073e01<SPI, BUSY, DC, RST, DELAY> {
    pub interface: DisplayInterfaceAsync<SPI, BUSY, DC, RST, DELAY, true>,
}

impl<SPI, BUSY, DC, RST, DELAY> Gdep073e01<SPI, BUSY, DC, RST, DELAY> {
    /// Takes ownership of the panel's control pins.
    pub fn new(_spi: &mut SPI, busy: BUSY, dc: DC, rst: RST, _delay: &mut DELAY) -> (r: Self)
        ensures
            r.interface.busy == busy,
            r.interface.dc == dc,
            r.interface.rst == rst,
    {
        Gdep073e01 { interface: DisplayInterfaceAsync::new(busy, dc, rst) }
    }
}

/// The panel's state is unknown (before reset, or after a wire error).
pub struct StateUnknown;

/// The panel has been reset and awaits initialization.
pub struct StateReset;

/// The panel is initialized with its charge pumps off.
pub struct StatePowerOff;

/// The panel is refreshing or switching power; it must be waited on
/// before the next command.  Waiting lands in the wrapped state.
pub struct StateBusy<T>(pub T);

/// The panel is powered and accepts frame data and refreshes.
pub struct StatePowerOn;

/// Typestate wrapper around the panel driver: each transition consumes
/// the old state, returns the new one, and hands the host the exact
/// script to clock out.  A host that hits a wire error drops back to
/// `StateUnknown` and must reset.
pub struct Gdep073e01State<STATE, SPI, BUSY, DC, RST, DELAY> {
    pub display: Gdep073e01<SPI, BUSY, DC, RST, DELAY>,
    pub state: STATE,
}

impl<SPI, BUSY, DC, RST, DELAY> Gdep073e01State<StateUnknown, SPI, BUSY, DC, RST, DELAY> {
    /// Takes ownership of the panel's control pins, in the unknown state.
    pub fn new(_spi: &mut SPI, busy: BUSY, dc: DC, rst: RST, _delay: &mut DELAY) -> (r: Self)
        ensures
            r.display.interface.busy == busy,
            r.display.interface.dc == dc,
            r.display.interface.rst == rst,
    {
        Gdep073e01State {
            display: Gdep073e01 { interface: DisplayInterfaceAsync::new(busy, dc, rst) },
            state: StateUnknown,
        }
    }
}

impl<STATE, SPI, BUSY, DC, RST, DELAY> Gdep073e01State<STATE, SPI, BUSY, DC, RST, DELAY> {
    /// A hardware reset is legal from any state and lands in the reset
    /// state; the host must pulse the reset pin with the returned
    /// timings.
    pub fn reset(self) -> (r: (
        Gdep073e01State<StateReset, SPI, BUSY, DC, RST, DELAY>,
        ResetTimings,
    ))
        ensures
            r.0.display == self.display,
            r.1 == (ResetTimings { initial_us: 10000, duration_us: 10000, settle_us: 10000 }),
    {
        (Gdep073e01State { display: self.display, state: StateReset }, reset_timings())
    }
}

impl<SPI, BUSY, DC, RST, DELAY> Gdep073e01State<StateReset, SPI, BUSY, DC, RST, DELAY> {
    /// Initializes the panel; the host must clock out the returned
    /// script in order.
    pub fn init(self) -> (r: (
        Gdep073e01State<StatePowerOff, SPI, BUSY, DC, RST, DELAY>,
        Vec<ScriptStep>,
    ))
        ensures
            r.0.display == self.display,
            spec_init_script(r.1@),
    {
        (Gdep073e01State { display: self.display, state: StatePowerOff }, init_script())
    }
}

impl<SPI, BUSY, DC, RST, DELAY> Gdep073e01State<StatePowerOff, SPI, BUSY, DC, RST, DELAY> {
    /// Turns the charge pumps on; the panel is busy until waited on.
    pub fn power_on_no_wait(self) -> (r: (
        Gdep073e01State<StateBusy<StatePowerOn>, SPI, BUSY, DC, RST, DELAY>,
        ScriptStep,
    ))
        ensures
            r.0.display == self.display,
            r.1.address == 0x04,
            r.1.data@ =~= Seq::<u8>::empty(),
    {
        (
            Gdep073e01State { display: self.display, state: StateBusy(StatePowerOn) },
            ScriptStep { address: 0x04, data: Vec::new() },
        )
    }
}

impl<DONESTATE, SPI, BUSY, DC, RST, DELAY> Gdep073e01State<
    StateBusy<DONESTATE>,
    SPI,
    BUSY,
    DC,
    RST,
    DELAY,
> {
    /// After the host has waited for the busy pin to clear, the panel is
    /// in the wrapped state.
    pub fn wait(self) -> (r: Gdep073e01State<DONESTATE, SPI, BUSY, DC, RST, DELAY>)
        ensures
            r.display == self.display,
            r.state == self.state.0,
    {
        let StateBusy(next) = self.state;
        Gdep073e01State { display: self.display, state: next }
    }
}

impl<SPI, BUSY, DC, RST, DELAY> Gdep073e01State<StatePowerOn, SPI, BUSY, DC, RST, DELAY> {
    /// Turns the charge pumps off; the panel is busy until waited on.
    pub fn power_off_no_wait(self) -> (r: (
        Gdep073e01State<StateBusy<StatePowerOff>, SPI, BUSY, DC, RST, DELAY>,
        ScriptStep,
    ))
        ensures
            r.0.display == self.display,
            r.1.address == 0x02,
            r.1.data@ =~= seq![0x00u8],
    {
        (
            Gdep073e01State { display: self.display, state: StateBusy(StatePowerOff) },
            ScriptStep { address: 0x02, data: vec![0x00] },
        )
    }

    /// Sends a frame: the pixels packed two per byte behind the data
    /// start command.  The panel stays powered and ready to refresh.
    pub fn update_frame(self, pixels: &Vec<Spectra6Color>) -> (r: (
        Gdep073e01State<StatePowerOn, SPI, BUSY, DC, RST, DELAY>,
        ScriptStep,
    ))
        requires
            pixels@.len() < usize::MAX as int,
        ensures
            r.0.display == self.display,
            r.1.address == 0x10,
            r.1.data@.len() == (pixels@.len() + 1) / 2,
            forall|i: int|
                0 <= i < r.1.data@.len() ==> r.1.data@[i] == spec_packed_frame(pixels@, i),
    {
        (
            Gdep073e01State { display: self.display, state: StatePowerOn },
            ScriptStep { address: 0x10, data: SpectraPacker::pack(pixels) },
        )
    }

    /// Refreshes the display from the frame buffer; the panel is busy
    /// until waited on.
    pub fn display_frame_no_wait(self) -> (r: (
        Gdep073e01State<StateBusy<StatePowerOn>, SPI, BUSY, DC, RST, DELAY>,
        ScriptStep,
    ))
        ensures
            r.0.display == self.display,
            r.1.address == 0x12,
            r.1.data@ =~= seq![0x00u8],
    {
        (
            Gdep073e01State { display: self.display, state: StateBusy(StatePowerOn) },
            ScriptStep { address: 0x12, data: vec![0x00] },
        )
    }
}

} // verus!
