//! Calibration patterns and the commands that show them.

use vstd::prelude::*;

use crate::conf::{gives, hdr_args, law_options_give_settings, pair_at, HdrConf, HdrConfView};
use crate::number::{decimal, u32_text};
use crate::text::strings;

verus! {

/// The calibration script.
pub const HDR_CAL: &'static str = "/usr/local/lib/kms-hdr/hdr-cal.py";

/// A full-screen test pattern.
#[derive(Debug, Clone, Copy, PartialEq, Eq, Structural)]
pub enum CalibPattern {
    Black,
    DarkGray,
    Gray50,
    White,
    Red,
    Green,
    Blue,
    SdrHdrSplit,
}

impl CalibPattern {
    /// The pattern's name on its button.
    pub open spec fn label_text(self) -> Seq<char> {
        match self {
            CalibPattern::Black => "Black"@,
            CalibPattern::DarkGray => "5% Gray"@,
            CalibPattern::Gray50 => "50% Gray"@,
            CalibPattern::White => "White"@,
            CalibPattern::Red => "Red"@,
            CalibPattern::Green => "Green"@,
            CalibPattern::Blue => "Blue"@,
            CalibPattern::SdrHdrSplit => "SDR│HDR"@,
        }
    }

    /// The pattern's name on the command line.
    pub open spec fn arg_text(self) -> Seq<char> {
        match self {
            CalibPattern::Black => "black"@,
            CalibPattern::DarkGray => "darkgray"@,
            CalibPattern::Gray50 => "gray50"@,
            CalibPattern::White => "white"@,
            CalibPattern::Red => "red"@,
            CalibPattern::Green => "green"@,
            CalibPattern::Blue => "blue"@,
            CalibPattern::SdrHdrSplit => "sdr_hdr"@,
        }
    }

    /// The pattern's name on its button.
    pub fn label(self) -> (r: &'static str)
        ensures
            r@ == self.label_text(),
    {
        match self {
            CalibPattern::Black => "Black",
            CalibPattern::DarkGray => "5% Gray",
            CalibPattern::Gray50 => "50% Gray",
            CalibPattern::White => "White",
            CalibPattern::Red => "Red",
            CalibPattern::Green => "Green",
            CalibPattern::Blue => "Blue",
            CalibPattern::SdrHdrSplit => "SDR│HDR",
        }
    }

    /// The pattern's name on the command line.
    pub fn arg(self) -> (r: &'static str)
        ensures
            r@ == self.arg_text(),
    {
        match self {
            CalibPattern::Black => "black",
            CalibPattern::DarkGray => "darkgray",
            CalibPattern::Gray50 => "gray50",
            CalibPattern::White => "white",
            CalibPattern::Red => "red",
            CalibPattern::Green => "green",
            CalibPattern::Blue => "blue",
            CalibPattern::SdrHdrSplit => "sdr_hdr",
        }
    }
}

/// The arguments that show a test pattern.
pub open spec fn pattern_args(p: CalibPattern) -> Seq<Seq<char>> {
    seq![HDR_CAL@, p.arg_text()]
}

/// The arguments that start the interactive calibration.
pub open spec fn calibration_args(c: HdrConfView) -> Seq<Seq<char>> {
    seq![
        HDR_CAL@,
        "--calibrate"@,
        "--sdr-nits"@,
        decimal(c.sdr_nits as nat),
        "--peak-nits"@,
        decimal(c.peak_nits as nat),
        "--gamut"@,
        decimal(c.gamut as nat),
        "--bpc"@,
        decimal(c.max_bpc as nat),
        "--gamut-mode"@,
        c.gamut_mode,
    ]
}

/// The arguments that show a test pattern.
pub fn show_pattern_args(p: CalibPattern) -> (r: Vec<String>)
    ensures
        strings(r@) == pattern_args(p),
{
    let r: Vec<String> = vec![HDR_CAL.to_owned(), p.arg().to_owned()];
    assert(strings(r@) == pattern_args(p));
    r
}

/// The arguments that start the interactive calibration.
pub fn calibrate_args(c: &HdrConf) -> (r: Vec<String>)
    ensures
        strings(r@) == calibration_args(c@),
{
    let r: Vec<String> = vec![
        HDR_CAL.to_owned(),
        "--calibrate".to_owned(),
        "--sdr-nits".to_owned(),
        u32_text(c.sdr_nits),
        "--peak-nits".to_owned(),
        u32_text(c.peak_nits),
        "--gamut".to_owned(),
        u32_text(c.gamut),
        "--bpc".to_owned(),
        u32_text(c.max_bpc),
        "--gamut-mode".to_owned(),
        c.gamut_mode.clone(),
    ];
    assert(strings(r@) == calibration_args(c@));
    r
}

/// Two patterns with one name on the command line are the same pattern.
pub proof fn law_pattern_args_distinct(p: CalibPattern, q: CalibPattern)
    requires
        p.arg_text() == q.arg_text(),
    ensures
        p == q,
{
    reveal_strlit("black");
    reveal_strlit("darkgray");
    reveal_strlit("gray50");
    reveal_strlit("white");
    reveal_strlit("red");
    reveal_strlit("green");
    reveal_strlit("blue");
    reveal_strlit("sdr_hdr");
    assert("black"@.len() == 5);
    assert("darkgray"@.len() == 8);
    assert("gray50"@.len() == 6);
    assert("white"@.len() == 5);
    assert("red"@.len() == 3);
    assert("green"@.len() == 5);
    assert("blue"@.len() == 4);
    assert("sdr_hdr"@.len() == 7);
    assert("black"@[0] == 'b');
    assert("white"@[0] == 'w');
    assert("green"@[0] == 'g');
}

/// The calibration starts from the settings: behind the script and the word
/// that calls for it, every option is followed by its own setting.
pub proof fn law_calibration_gives_settings(c: HdrConfView)
    ensures
        calibration_args(c).len() == 12,
        calibration_args(c)[0] == HDR_CAL@,
        calibration_args(c)[1] == "--calibrate"@,
        gives(calibration_args(c).skip(2), "--sdr-nits"@, decimal(c.sdr_nits as nat)),
        gives(calibration_args(c).skip(2), "--peak-nits"@, decimal(c.peak_nits as nat)),
        gives(calibration_args(c).skip(2), "--gamut"@, decimal(c.gamut as nat)),
        gives(calibration_args(c).skip(2), "--bpc"@, decimal(c.max_bpc as nat)),
        gives(calibration_args(c).skip(2), "--gamut-mode"@, c.gamut_mode),
{
    let args = calibration_args(c).skip(2);
    assert(args == hdr_args(c).take(10));
    law_options_give_settings(c);
    assert(pair_at(args, 0, "--sdr-nits"@, decimal(c.sdr_nits as nat)));
    assert(pair_at(args, 1, "--peak-nits"@, decimal(c.peak_nits as nat)));
    assert(pair_at(args, 2, "--gamut"@, decimal(c.gamut as nat)));
    assert(pair_at(args, 3, "--bpc"@, decimal(c.max_bpc as nat)));
    assert(pair_at(args, 4, "--gamut-mode"@, c.gamut_mode));
    assert forall|i: int, option: Seq<char>, value: Seq<char>| #[trigger]
        pair_at(args, i, option, value) implies pair_at(hdr_args(c), i, option, value) by {
    }
}

/// A pattern is asked for by the script and its own name.
pub proof fn law_pattern_args(p: CalibPattern)
    ensures
        pattern_args(p).len() == 2,
        pattern_args(p)[0] == HDR_CAL@,
        pattern_args(p)[1] == p.arg_text(),
{
}

} // verus!
