use reterminal_e100x::dither::{
    Atkinson, DefaultQuantizationError, DitherPalette, FloydSteinberg,
    ForwardErrorDiffusion, ForwardErrorDiffusionMethod, JarvisJudiceAndNinke, Rgb,
    RgbColorToBinaryColor, RgbColorToPalette,
};
use reterminal_e100x::displayinterface::Command as CommandTrait;
use reterminal_e100x::gdep073e01::{init_script, Command, Gdep073e01State};
use reterminal_e100x::spectra6::{test_screen, Spectra6Color, SpectraPacker};

fn zero_err() -> DefaultQuantizationError {
    DefaultQuantizationError { c0: 0, c1: 0, c2: 0 }
}

#[test]
fn binary_palette_splits_at_half_brightness() {
    let p = RgbColorToBinaryColor::new();
    let (white, werr) = p.get_closest(Rgb { r: 255, g: 255, b: 255 }, zero_err());
    assert!(white);
    assert_eq!(werr.c0, 0);
    let (black, berr) = p.get_closest(Rgb { r: 0, g: 0, b: 0 }, zero_err());
    assert!(!black);
    assert_eq!(berr.c0, 0);
    // 382 is still dark, 383 is light.
    let (dark, derr) = p.get_closest(Rgb { r: 127, g: 127, b: 128 }, zero_err());
    assert!(!dark);
    assert_eq!(derr.c0, 382);
    let (light, lerr) = p.get_closest(Rgb { r: 127, g: 128, b: 128 }, zero_err());
    assert!(light);
    assert_eq!(lerr.c0, 383 - 765);
}

#[test]
fn palette_picks_nearest_entry() {
    let entries = vec![
        (Rgb { r: 0, g: 0, b: 0 }, Spectra6Color::Black),
        (Rgb { r: 255, g: 255, b: 255 }, Spectra6Color::White),
        (Rgb { r: 178, g: 19, b: 24 }, Spectra6Color::Red),
    ];
    let p = RgbColorToPalette::new(entries);
    let (c, err) = p.get_closest(Rgb { r: 200, g: 200, b: 200 }, zero_err());
    assert_eq!(c, Spectra6Color::White);
    assert_eq!((err.c0, err.c1, err.c2), (-55, -55, -55));
    let (r, _) = p.get_closest(Rgb { r: 170, g: 30, b: 30 }, zero_err());
    assert_eq!(r, Spectra6Color::Red);
}

#[test]
fn palette_tie_prefers_earlier_entry() {
    // Two entries at exactly the same squared distance: the first one
    // in the palette wins.
    let entries = vec![
        (Rgb { r: 90, g: 0, b: 0 }, Spectra6Color::Black),
        (Rgb { r: 110, g: 0, b: 0 }, Spectra6Color::White),
    ];
    let p = RgbColorToPalette::new(entries);
    let (c, _) = p.get_closest(Rgb { r: 100, g: 0, b: 0 }, zero_err());
    assert_eq!(c, Spectra6Color::Black);
}

#[test]
fn palette_uses_diffused_error() {
    let entries = vec![
        (Rgb { r: 0, g: 0, b: 0 }, Spectra6Color::Black),
        (Rgb { r: 255, g: 255, b: 255 }, Spectra6Color::White),
    ];
    let p = RgbColorToPalette::new(entries);
    let e = DefaultQuantizationError { c0: 100, c1: 100, c2: 100 };
    let (c, _) = p.get_closest(Rgb { r: 60, g: 60, b: 60 }, e);
    // 60 alone is nearer black; with +100 diffused it tips to white.
    assert_eq!(c, Spectra6Color::White);
    let (d, _) = p.get_closest(Rgb { r: 60, g: 60, b: 60 }, zero_err());
    assert_eq!(d, Spectra6Color::Black);
}

#[test]
fn diffusion_methods_report_their_kernels() {
    assert_eq!(FloydSteinberg.get_divisor(), 16);
    assert_eq!(FloydSteinberg.get_max_y_target(), 1);
    assert_eq!(FloydSteinberg.get_targets().len(), 4);
    assert_eq!(JarvisJudiceAndNinke.get_divisor(), 48);
    assert_eq!(JarvisJudiceAndNinke.get_max_y_target(), 2);
    assert_eq!(JarvisJudiceAndNinke.get_targets().len(), 12);
    assert_eq!(Atkinson.get_divisor(), 8);
    assert_eq!(Atkinson.get_max_y_target(), 2);
    assert_eq!(Atkinson.get_targets().len(), 6);
}

#[test]
fn error_diffusion_carries_error_rightward() {
    let mut fed = ForwardErrorDiffusion::new(RgbColorToBinaryColor::new(), FloydSteinberg, 4);
    let gray = Rgb { r: 128, g: 128, b: 128 };
    // 384 > 382: the first gray pixel rounds up and pushes negative
    // error (384 - 765 = -381) onto its neighbours; 7/16 of it lands on
    // the next pixel, which then rounds down.
    let first = fed.next(gray);
    assert!(first);
    let second = fed.next(gray);
    assert!(!second);
}

#[test]
fn error_diffusion_buffer_starts_clean() {
    let mut fed = ForwardErrorDiffusion::new(
        RgbColorToBinaryColor::new(),
        JarvisJudiceAndNinke,
        3,
    );
    // With no accumulated error, pure black stays black across rows.
    for _ in 0..9 {
        assert!(!fed.next(Rgb { r: 0, g: 0, b: 0 }));
    }
}

#[test]
fn spectra_nibbles_match_panel_codes() {
    assert_eq!(Spectra6Color::Black.nibble(), 0);
    assert_eq!(Spectra6Color::White.nibble(), 1);
    assert_eq!(Spectra6Color::Yellow.nibble(), 2);
    assert_eq!(Spectra6Color::Red.nibble(), 3);
    assert_eq!(Spectra6Color::Blue.nibble(), 5);
    assert_eq!(Spectra6Color::Green.nibble(), 6);
    assert_eq!(Spectra6Color::Clean.nibble(), 7);
}

#[test]
fn packer_packs_two_pixels_per_byte() {
    assert_eq!(SpectraPacker::pack_pair(Spectra6Color::White, Spectra6Color::Black), 0x10);
    assert_eq!(SpectraPacker::pack_pair(Spectra6Color::Red, Spectra6Color::Green), 0x36);
    let frame = vec![Spectra6Color::White, Spectra6Color::Black, Spectra6Color::Red];
    let packed = SpectraPacker::pack(&frame);
    // Odd frames are padded with white.
    assert_eq!(packed, vec![0x10, 0x31]);
}

#[test]
fn test_screen_cycles_six_colors() {
    let screen = test_screen(96, 33);
    assert_eq!(screen.len(), 96 * 33);
    assert_eq!(screen[0], Spectra6Color::White);
    assert_eq!(screen[32], Spectra6Color::Black);
    assert_eq!(screen[64], Spectra6Color::Red);
    // One square down the diagonal advances the cycle as well.
    assert_eq!(screen[32 * 96], Spectra6Color::Black);
    assert_eq!(screen[32 * 96 + 32], Spectra6Color::Red);
}

#[test]
fn command_addresses_match_datasheet() {
    assert_eq!(Command::PanelSetting.address(), 0x00);
    assert_eq!(Command::PowerOn.address(), 0x04);
    assert_eq!(Command::PowerOff.address(), 0x02);
    assert_eq!(Command::DataStartTransmission.address(), 0x10);
    assert_eq!(Command::DisplayRefresh.address(), 0x12);
    assert_eq!(Command::CMDH.address(), 0xAA);
}

#[test]
fn init_script_matches_datasheet_sequence() {
    let s = init_script();
    assert_eq!(s.len(), 13);
    assert_eq!(s[0].address, 0xAA);
    assert_eq!(s[0].data, vec![0x49, 0x55, 0x20, 0x08, 0x09, 0x18]);
    assert_eq!(s[7].address, 0x30);
    assert_eq!(s[7].data, vec![0x03]);
    assert_eq!(s[12].address, 0xE3);
    assert_eq!(s[12].data, vec![0x2F]);
}

#[test]
fn panel_state_machine_walks_the_power_sequence() {
    let mut spi = ();
    let mut delay = ();
    let st = Gdep073e01State::new(&mut spi, (), (), (), &mut delay);
    let (st, timings) = st.reset();
    assert_eq!(timings.initial_us, 10000);
    assert_eq!(timings.duration_us, 10000);
    assert_eq!(timings.settle_us, 10000);
    let (st, script) = st.init();
    assert_eq!(script.len(), 13);
    let (st, on) = st.power_on_no_wait();
    assert_eq!(on.address, 0x04);
    assert!(on.data.is_empty());
    let st = st.wait();
    let frame = vec![Spectra6Color::Red, Spectra6Color::Blue];
    let (st, data) = st.update_frame(&frame);
    assert_eq!(data.address, 0x10);
    assert_eq!(data.data, vec![0x35]);
    let (st, refresh) = st.display_frame_no_wait();
    assert_eq!(refresh.address, 0x12);
    assert_eq!(refresh.data, vec![0x00]);
    let st = st.wait();
    let (st, off) = st.power_off_no_wait();
    assert_eq!(off.address, 0x02);
    assert_eq!(off.data, vec![0x00]);
    let _ = st.wait();
}
