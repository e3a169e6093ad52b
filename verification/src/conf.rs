//! The two settings files: display settings and gaming settings.
//!
//! Both are lists of `KEY=value` lines. White space around keys and values is
//! dropped, later lines win, and what cannot be read leaves a setting as it is.

use vstd::prelude::*;

use crate::number::{decimal, i32_text, law_i32_round_trip, law_u32_round_trip, lemma_decimal_value,
    parse_i32, parse_u32, parsed_i32, parsed_u32, signed_decimal, u32_text};
use crate::text::{cut, law_cut, lemma_cut_joined, lemma_split_on_absent, lemma_split_on_extended,
    lemma_split_on_joined, same_text, split, split_on, split_once, strings, texts, trim, trimmed,
    white_space};

verus! {

/// Settings of the HDR output.
#[derive(Debug)]
pub struct HdrConf {
    pub sdr_nits: u32,
    pub peak_nits: u32,
    pub gamut: u32,
    pub max_bpc: u32,
    pub gamut_mode: String,
    pub saturation: u32,
    /// 100 is neutral, more is punchier, less lifts the midtones. The panel
    /// offers 30 to 250.
    pub midtone_gamma: u32,
    pub oled_preset: bool,
    pub oled_dim_min: u32,
}

/// The contents of the HDR settings.
pub struct HdrConfView {
    pub sdr_nits: u32,
    pub peak_nits: u32,
    pub gamut: u32,
    pub max_bpc: u32,
    pub gamut_mode: Seq<char>,
    pub saturation: u32,
    pub midtone_gamma: u32,
    pub oled_preset: bool,
    pub oled_dim_min: u32,
}

impl View for HdrConf {
    type V = HdrConfView;

    open spec fn view(&self) -> HdrConfView {
        HdrConfView {
            sdr_nits: self.sdr_nits,
            peak_nits: self.peak_nits,
            gamut: self.gamut,
            max_bpc: self.max_bpc,
            gamut_mode: self.gamut_mode@,
            saturation: self.saturation,
            midtone_gamma: self.midtone_gamma,
            oled_preset: self.oled_preset,
            oled_dim_min: self.oled_dim_min,
        }
    }
}

/// The HDR settings of a machine without a settings file.
pub open spec fn default_hdr() -> HdrConfView {
    HdrConfView {
        sdr_nits: 203,
        peak_nits: 800,
        gamut: 100,
        max_bpc: 10,
        gamut_mode: "bt2020"@,
        saturation: 100,
        midtone_gamma: 100,
        oled_preset: false,
        oled_dim_min: 0,
    }
}

impl Default for HdrConf {
    fn default() -> (r: Self)
        ensures
            r@ == default_hdr(),
    {
        HdrConf {
            sdr_nits: 203,
            peak_nits: 800,
            gamut: 100,
            max_bpc: 10,
            gamut_mode: "bt2020".to_owned(),
            saturation: 100,
            midtone_gamma: 100,
            oled_preset: false,
            oled_dim_min: 0,
        }
    }
}

impl Clone for HdrConf {
    fn clone(&self) -> (r: Self)
        ensures
            r@ == self@,
    {
        HdrConf {
            sdr_nits: self.sdr_nits,
            peak_nits: self.peak_nits,
            gamut: self.gamut,
            max_bpc: self.max_bpc,
            gamut_mode: self.gamut_mode.clone(),
            saturation: self.saturation,
            midtone_gamma: self.midtone_gamma,
            oled_preset: self.oled_preset,
            oled_dim_min: self.oled_dim_min,
        }
    }
}

/// Gaming settings for NVIDIA hardware.
#[derive(Debug)]
pub struct NvidiaConf {
    pub smooth_motion: bool,
    pub reflex: bool,
    pub vibrance: i32,
    pub upscale: String,
    pub dldsr: bool,
    pub gs_width: u32,
    pub gs_height: u32,
    pub gs_fps: u32,
}

/// The contents of the gaming settings.
pub struct NvidiaConfView {
    pub smooth_motion: bool,
    pub reflex: bool,
    pub vibrance: i32,
    pub upscale: Seq<char>,
    pub dldsr: bool,
    pub gs_width: u32,
    pub gs_height: u32,
    pub gs_fps: u32,
}

impl View for NvidiaConf {
    type V = NvidiaConfView;

    open spec fn view(&self) -> NvidiaConfView {
        NvidiaConfView {
            smooth_motion: self.smooth_motion,
            reflex: self.reflex,
            vibrance: self.vibrance,
            upscale: self.upscale@,
            dldsr: self.dldsr,
            gs_width: self.gs_width,
            gs_height: self.gs_height,
            gs_fps: self.gs_fps,
        }
    }
}

/// The gaming settings of a machine without a settings file.
pub open spec fn default_nvidia() -> NvidiaConfView {
    NvidiaConfView {
        smooth_motion: true,
        reflex: true,
        vibrance: 0,
        upscale: "fsr"@,
        dldsr: false,
        gs_width: 3840,
        gs_height: 2160,
        gs_fps: 120,
    }
}

impl Default for NvidiaConf {
    fn default() -> (r: Self)
        ensures
            r@ == default_nvidia(),
    {
        NvidiaConf {
            smooth_motion: true,
            reflex: true,
            vibrance: 0,
            upscale: "fsr".to_owned(),
            dldsr: false,
            gs_width: 3840,
            gs_height: 2160,
            gs_fps: 120,
        }
    }
}

impl Clone for NvidiaConf {
    fn clone(&self) -> (r: Self)
        ensures
            r@ == self@,
    {
        NvidiaConf {
            smooth_motion: self.smooth_motion,
            reflex: self.reflex,
            vibrance: self.vibrance,
            upscale: self.upscale.clone(),
            dldsr: self.dldsr,
            gs_width: self.gs_width,
            gs_height: self.gs_height,
            gs_fps: self.gs_fps,
        }
    }
}

/// The number that `value` spells, or `kept` where it spells none.
pub open spec fn number_or(value: Seq<char>, kept: u32) -> u32 {
    match parsed_u32(value) {
        Some(n) => n,
        None => kept,
    }
}

/// The signed number that `value` spells, or `kept` where it spells none.
pub open spec fn signed_or(value: Seq<char>, kept: i32) -> i32 {
    match parsed_i32(value) {
        Some(n) => n,
        None => kept,
    }
}

/// The HDR settings after `key` is set to `value`.
pub open spec fn hdr_set(c: HdrConfView, key: Seq<char>, value: Seq<char>) -> HdrConfView {
    if key == "SDR_NITS"@ {
        HdrConfView { sdr_nits: number_or(value, c.sdr_nits), ..c }
    } else if key == "PEAK_NITS"@ {
        HdrConfView { peak_nits: number_or(value, c.peak_nits), ..c }
    } else if key == "GAMUT"@ {
        HdrConfView { gamut: number_or(value, c.gamut), ..c }
    } else if key == "MAX_BPC"@ {
        HdrConfView { max_bpc: number_or(value, c.max_bpc), ..c }
    } else if key == "GAMUT_MODE"@ {
        HdrConfView { gamut_mode: value, ..c }
    } else if key == "SATURATION"@ {
        HdrConfView { saturation: number_or(value, c.saturation), ..c }
    } else if key == "MIDTONE_GAMMA"@ {
        HdrConfView { midtone_gamma: number_or(value, c.midtone_gamma), ..c }
    } else if key == "OLED_PRESET"@ {
        HdrConfView { oled_preset: value == "1"@, ..c }
    } else if key == "OLED_DIM_MIN"@ {
        HdrConfView { oled_dim_min: number_or(value, c.oled_dim_min), ..c }
    } else {
        c
    }
}

/// The HDR settings after one line of the file.
pub open spec fn hdr_line(c: HdrConfView, line: Seq<char>) -> HdrConfView {
    match cut(line, '=') {
        Some((k, v)) => hdr_set(c, trimmed(k), trimmed(v)),
        None => c,
    }
}

/// The HDR settings after the lines of a file.
pub open spec fn hdr_lines(c: HdrConfView, lines: Seq<Seq<char>>) -> HdrConfView
    decreases lines.len(),
{
    if lines.len() == 0 {
        c
    } else {
        hdr_line(hdr_lines(c, lines.drop_last()), lines.last())
    }
}

/// The HDR settings that a file's text stands for.
pub open spec fn hdr_conf_of(text: Seq<char>) -> HdrConfView {
    hdr_lines(default_hdr(), split_on(text, '\n'))
}

/// The gaming settings after `key` is set to `value`.
pub open spec fn nvidia_set(
    c: NvidiaConfView,
    key: Seq<char>,
    value: Seq<char>,
) -> NvidiaConfView {
    if key == "SMOOTH_MOTION"@ {
        NvidiaConfView { smooth_motion: value != "0"@, ..c }
    } else if key == "REFLEX"@ {
        NvidiaConfView { reflex: value != "0"@, ..c }
    } else if key == "VIBRANCE"@ {
        NvidiaConfView { vibrance: signed_or(value, c.vibrance), ..c }
    } else if key == "UPSCALE"@ {
        NvidiaConfView { upscale: value, ..c }
    } else if key == "DLDSR"@ {
        NvidiaConfView { dldsr: value == "1"@, ..c }
    } else if key == "GS_WIDTH"@ {
        NvidiaConfView { gs_width: number_or(value, c.gs_width), ..c }
    } else if key == "GS_HEIGHT"@ {
        NvidiaConfView { gs_height: number_or(value, c.gs_height), ..c }
    } else if key == "GS_FPS"@ {
        NvidiaConfView { gs_fps: number_or(value, c.gs_fps), ..c }
    } else {
        c
    }
}

/// The gaming settings after one line of the file.
pub open spec fn nvidia_line(c: NvidiaConfView, line: Seq<char>) -> NvidiaConfView {
    match cut(line, '=') {
        Some((k, v)) => nvidia_set(c, trimmed(k), trimmed(v)),
        None => c,
    }
}

/// The gaming settings after the lines of a file.
pub open spec fn nvidia_lines(c: NvidiaConfView, lines: Seq<Seq<char>>) -> NvidiaConfView
    decreases lines.len(),
{
    if lines.len() == 0 {
        c
    } else {
        nvidia_line(nvidia_lines(c, lines.drop_last()), lines.last())
    }
}

/// The gaming settings that a file's text stands for.
pub open spec fn nvidia_conf_of(text: Seq<char>) -> NvidiaConfView {
    nvidia_lines(default_nvidia(), split_on(text, '\n'))
}

/// The number in `value`, or `kept`.
fn read_number(value: &str, kept: u32) -> (r: u32)
    ensures
        r == number_or(value@, kept),
{
    match parse_u32(value) {
        Some(n) => n,
        None => kept,
    }
}

impl HdrConf {
    /// Sets `key` to `value`.
    fn set(&mut self, key: &str, value: &str)
        ensures
            final(self)@ == hdr_set(old(self)@, key@, value@),
    {
        if same_text(key, "SDR_NITS") {
            self.sdr_nits = read_number(value, self.sdr_nits);
        } else if same_text(key, "PEAK_NITS") {
            self.peak_nits = read_number(value, self.peak_nits);
        } else if same_text(key, "GAMUT") {
            self.gamut = read_number(value, self.gamut);
        } else if same_text(key, "MAX_BPC") {
            self.max_bpc = read_number(value, self.max_bpc);
        } else if same_text(key, "GAMUT_MODE") {
            self.gamut_mode = value.to_owned();
        } else if same_text(key, "SATURATION") {
            self.saturation = read_number(value, self.saturation);
        } else if same_text(key, "MIDTONE_GAMMA") {
            self.midtone_gamma = read_number(value, self.midtone_gamma);
        } else if same_text(key, "OLED_PRESET") {
            self.oled_preset = same_text(value, "1");
        } else if same_text(key, "OLED_DIM_MIN") {
            self.oled_dim_min = read_number(value, self.oled_dim_min);
        }
    }
}

impl NvidiaConf {
    /// Sets `key` to `value`.
    fn set(&mut self, key: &str, value: &str)
        ensures
            final(self)@ == nvidia_set(old(self)@, key@, value@),
    {
        if same_text(key, "SMOOTH_MOTION") {
            self.smooth_motion = !same_text(value, "0");
        } else if same_text(key, "REFLEX") {
            self.reflex = !same_text(value, "0");
        } else if same_text(key, "VIBRANCE") {
            match parse_i32(value) {
                Some(n) => {
                    self.vibrance = n;
                },
                None => {},
            }
        } else if same_text(key, "UPSCALE") {
            self.upscale = value.to_owned();
        } else if same_text(key, "DLDSR") {
            self.dldsr = same_text(value, "1");
        } else if same_text(key, "GS_WIDTH") {
            self.gs_width = read_number(value, self.gs_width);
        } else if same_text(key, "GS_HEIGHT") {
            self.gs_height = read_number(value, self.gs_height);
        } else if same_text(key, "GS_FPS") {
            self.gs_fps = read_number(value, self.gs_fps);
        }
    }
}

/// Reads the HDR settings from the text of their file; without a file they
/// are the defaults.
pub fn read_conf(file: Option<&str>) -> (c: HdrConf)
    ensures
        c@ == match file {
            Some(text) => hdr_conf_of(text@),
            None => default_hdr(),
        },
{
    let mut c: HdrConf = HdrConf::default();
    if let Some(text) = file {
        let lines: Vec<&str> = split(text, '\n');
        let n: usize = lines.len();
        let mut i: usize = 0;
        let ghost all = texts(lines@);
        assert(all.take(0) == Seq::<Seq<char>>::empty());
        while i < n
            invariant
                i <= n,
                n == lines@.len(),
                all == texts(lines@),
                c@ == hdr_lines(default_hdr(), all.take(i as int)),
            decreases n - i,
        {
            assert(all.take(i + 1).drop_last() == all.take(i as int));
            assert(all.take(i + 1).last() == lines@[i as int]@);
            if let Some((k, v)) = split_once(lines[i], '=') {
                c.set(trim(k), trim(v));
            }
            i += 1;
        }
        assert(all.take(n as int) == all);
    }
    c
}

/// Reads the gaming settings from the text of their file; without a file they
/// are the defaults.
pub fn read_nvidia_conf(file: Option<&str>) -> (c: NvidiaConf)
    ensures
        c@ == match file {
            Some(text) => nvidia_conf_of(text@),
            None => default_nvidia(),
        },
{
    let mut c: NvidiaConf = NvidiaConf::default();
    if let Some(text) = file {
        let lines: Vec<&str> = split(text, '\n');
        let n: usize = lines.len();
        let mut i: usize = 0;
        let ghost all = texts(lines@);
        assert(all.take(0) == Seq::<Seq<char>>::empty());
        while i < n
            invariant
                i <= n,
                n == lines@.len(),
                all == texts(lines@),
                c@ == nvidia_lines(default_nvidia(), all.take(i as int)),
            decreases n - i,
        {
            assert(all.take(i + 1).drop_last() == all.take(i as int));
            assert(all.take(i + 1).last() == lines@[i as int]@);
            if let Some((k, v)) = split_once(lines[i], '=') {
                c.set(trim(k), trim(v));
            }
            i += 1;
        }
        assert(all.take(n as int) == all);
    }
    c
}

/// The command line options that carry the HDR settings.
pub open spec fn hdr_args(c: HdrConfView) -> Seq<Seq<char>> {
    seq![
        "--sdr-nits"@,
        decimal(c.sdr_nits as nat),
        "--peak-nits"@,
        decimal(c.peak_nits as nat),
        "--gamut"@,
        decimal(c.gamut as nat),
        "--bpc"@,
        decimal(c.max_bpc as nat),
        "--gamut-mode"@,
        c.gamut_mode,
        "--saturation"@,
        decimal(c.saturation as nat),
        "--midtone-gamma"@,
        decimal(c.midtone_gamma as nat),
        "--oled-dim-min"@,
        decimal(c.oled_dim_min as nat),
    ]
}

/// The command line options that carry the HDR settings.
pub fn conf_args(c: &HdrConf) -> (r: Vec<String>)
    ensures
        strings(r@) == hdr_args(c@),
{
    let r: Vec<String> = vec![
        "--sdr-nits".to_owned(),
        u32_text(c.sdr_nits),
        "--peak-nits".to_owned(),
        u32_text(c.peak_nits),
        "--gamut".to_owned(),
        u32_text(c.gamut),
        "--bpc".to_owned(),
        u32_text(c.max_bpc),
        "--gamut-mode".to_owned(),
        c.gamut_mode.clone(),
        "--saturation".to_owned(),
        u32_text(c.saturation),
        "--midtone-gamma".to_owned(),
        u32_text(c.midtone_gamma),
        "--oled-dim-min".to_owned(),
        u32_text(c.oled_dim_min),
    ];
    assert(strings(r@) == hdr_args(c@));
    r
}

/// A switch as the digit that files hold for it.
pub open spec fn switch_digit(on: bool) -> Seq<char> {
    if on {
        "1"@
    } else {
        "0"@
    }
}

/// The lines that carry the gaming settings.
pub open spec fn nvidia_assignments(c: NvidiaConfView) -> Seq<Seq<char>> {
    seq![
        "SMOOTH_MOTION="@ + switch_digit(c.smooth_motion),
        "REFLEX="@ + switch_digit(c.reflex),
        "VIBRANCE="@ + signed_decimal(c.vibrance as int),
        "UPSCALE="@ + c.upscale,
        "DLDSR="@ + switch_digit(c.dldsr),
        "GS_WIDTH="@ + decimal(c.gs_width as nat),
        "GS_HEIGHT="@ + decimal(c.gs_height as nat),
        "GS_FPS="@ + decimal(c.gs_fps as nat),
    ]
}

/// `front` followed by `back`.
pub(crate) fn joined(front: &str, back: &str) -> (r: String)
    ensures
        r@ == front@ + back@,
{
    let mut r: String = front.to_owned();
    r.append(back);
    r
}

/// The digit of a switch.
fn switch_text(on: bool) -> (r: &'static str)
    ensures
        r@ == switch_digit(on),
{
    if on {
        "1"
    } else {
        "0"
    }
}

/// Writes the gaming settings as `KEY=value` lines.
pub fn nvidia_args(c: &NvidiaConf) -> (r: Vec<String>)
    ensures
        strings(r@) == nvidia_assignments(c@),
{
    let r: Vec<String> = vec![
        joined("SMOOTH_MOTION=", switch_text(c.smooth_motion)),
        joined("REFLEX=", switch_text(c.reflex)),
        joined("VIBRANCE=", i32_text(c.vibrance).as_str()),
        joined("UPSCALE=", c.upscale.as_str()),
        joined("DLDSR=", switch_text(c.dldsr)),
        joined("GS_WIDTH=", u32_text(c.gs_width).as_str()),
        joined("GS_HEIGHT=", u32_text(c.gs_height).as_str()),
        joined("GS_FPS=", u32_text(c.gs_fps).as_str()),
    ];
    assert(strings(r@) == nvidia_assignments(c@));
    r
}

/// The options carry every setting but the preset: two settings with the same
/// options differ at most in the preset.
pub proof fn law_options_carry_settings(a: HdrConfView, b: HdrConfView)
    ensures
        hdr_args(a) == hdr_args(b) <==> a == (HdrConfView { oled_preset: a.oled_preset, ..b }),
{
    let x = hdr_args(a);
    let y = hdr_args(b);
    if x == y {
        law_u32_round_trip(a.sdr_nits);
        law_u32_round_trip(b.sdr_nits);
        assert(x[1] == y[1]);
        law_u32_round_trip(a.peak_nits);
        law_u32_round_trip(b.peak_nits);
        assert(x[3] == y[3]);
        law_u32_round_trip(a.gamut);
        law_u32_round_trip(b.gamut);
        assert(x[5] == y[5]);
        law_u32_round_trip(a.max_bpc);
        law_u32_round_trip(b.max_bpc);
        assert(x[7] == y[7]);
        assert(x[9] == y[9]);
        law_u32_round_trip(a.saturation);
        law_u32_round_trip(b.saturation);
        assert(x[11] == y[11]);
        law_u32_round_trip(a.midtone_gamma);
        law_u32_round_trip(b.midtone_gamma);
        assert(x[13] == y[13]);
        law_u32_round_trip(a.oled_dim_min);
        law_u32_round_trip(b.oled_dim_min);
        assert(x[15] == y[15]);
    }
}

/// A line at the end of a file sets its key last: it acts on the settings
/// that the text before it stands for.
pub proof fn law_hdr_last_line_wins(text: Seq<char>, line: Seq<char>)
    requires
        !line.contains('\n'),
    ensures
        hdr_conf_of(text.push('\n') + line) == hdr_line(hdr_conf_of(text), line),
{
    let lines = split_on(text, '\n');
    lemma_split_on_joined(text, line, '\n');
    lemma_split_on_absent(line, '\n');
    assert(lines + seq![line] == lines.push(line));
    assert(lines.push(line).drop_last() == lines);
}

/// A line at the end of a file sets its key last: it acts on the settings
/// that the text before it stands for.
pub proof fn law_nvidia_last_line_wins(text: Seq<char>, line: Seq<char>)
    requires
        !line.contains('\n'),
    ensures
        nvidia_conf_of(text.push('\n') + line) == nvidia_line(nvidia_conf_of(text), line),
{
    let lines = split_on(text, '\n');
    lemma_split_on_joined(text, line, '\n');
    lemma_split_on_absent(line, '\n');
    assert(lines + seq![line] == lines.push(line));
    assert(lines.push(line).drop_last() == lines);
}

/// An empty file leaves every setting at its default, as no file does.
pub proof fn law_empty_file()
    ensures
        hdr_conf_of(Seq::empty()) == default_hdr(),
        nvidia_conf_of(Seq::empty()) == default_nvidia(),
{
    let line = Seq::<char>::empty();
    assert(split_on(line, '\n') == seq![line]);
    assert(seq![line].drop_last() == Seq::<Seq<char>>::empty());
    assert(seq![line].last() == line);
    assert(hdr_lines(default_hdr(), seq![line].drop_last()) == default_hdr());
    assert(nvidia_lines(default_nvidia(), seq![line].drop_last()) == default_nvidia());
    assert(cut(line, '=') is None);
}

/// The text of a file with the given lines, each ended by a line feed.
pub open spec fn file_text(lines: Seq<Seq<char>>) -> Seq<char>
    decreases lines.len(),
{
    if lines.len() == 0 {
        Seq::empty()
    } else {
        file_text(lines.drop_last()) + lines.last().push('\n')
    }
}

/// Splitting a file at its line feeds gives its lines and an empty rest.
proof fn lemma_file_lines(lines: Seq<Seq<char>>)
    requires
        forall|i: int| 0 <= i < lines.len() ==> !(#[trigger] lines[i]).contains('\n'),
    ensures
        split_on(file_text(lines), '\n') == lines.push(Seq::empty()),
    decreases lines.len(),
{
    let none = Seq::<char>::empty();
    if lines.len() == 0 {
        assert(split_on(none, '\n') == seq![none]);
        assert(lines.push(none) == seq![none]);
    } else {
        let front = lines.drop_last();
        let line = lines.last();
        assert forall|i: int| 0 <= i < front.len() implies !(#[trigger] front[i]).contains(
            '\n',
        ) by {
            assert(front[i] == lines[i]);
        }
        lemma_file_lines(front);
        assert(!lines[lines.len() - 1].contains('\n'));
        let a = file_text(front);
        lemma_split_on_extended(a, line, '\n');
        assert(front.push(none).drop_last() == front);
        assert(none + line == line);
        assert(front.push(line) == lines);
        let whole = a + line.push('\n');
        assert(whole.drop_last() == a + line);
        assert(whole.last() == '\n');
        assert(split_on(whole, '\n') == lines.push(none));
    }
}

/// A line that assigns `value` to `key` sets that key.
proof fn lemma_nvidia_assignment(
    c: NvidiaConfView,
    key: Seq<char>,
    front: Seq<char>,
    value: Seq<char>,
)
    requires
        front == key.push('='),
        !key.contains('='),
        key.len() > 0,
        !white_space(key[0]),
        !white_space(key.last()),
        trimmed(value) == value,
    ensures
        nvidia_line(c, front + value) == nvidia_set(c, key, value),
{
    lemma_cut_joined(key, value, '=');
}

/// What tells the keys of the gaming settings apart.
proof fn lemma_nvidia_keys()
    ensures
        "SMOOTH_MOTION"@.len() == 13,
        "REFLEX"@.len() == 6,
        "VIBRANCE"@.len() == 8,
        "UPSCALE"@.len() == 7,
        "DLDSR"@.len() == 5,
        "GS_WIDTH"@.len() == 8,
        "GS_HEIGHT"@.len() == 9,
        "GS_FPS"@.len() == 6,
        "REFLEX"@[0] == 'R',
        "VIBRANCE"@[0] == 'V',
        "GS_WIDTH"@[0] == 'G',
        "GS_FPS"@[0] == 'G',
{
    reveal_strlit("SMOOTH_MOTION");
    reveal_strlit("REFLEX");
    reveal_strlit("VIBRANCE");
    reveal_strlit("UPSCALE");
    reveal_strlit("DLDSR");
    reveal_strlit("GS_WIDTH");
    reveal_strlit("GS_HEIGHT");
    reveal_strlit("GS_FPS");
}

/// What a `SMOOTH_MOTION` line sets.
proof fn lemma_smooth_motion_line(c: NvidiaConfView, value: Seq<char>)
    requires
        trimmed(value) == value,
    ensures
        nvidia_line(c, "SMOOTH_MOTION="@ + value) == (NvidiaConfView { smooth_motion: value != "0"@, ..c }),
{
    reveal_strlit("SMOOTH_MOTION");
    reveal_strlit("SMOOTH_MOTION=");
    lemma_nvidia_keys();
    assert("SMOOTH_MOTION="@ == "SMOOTH_MOTION"@.push('='));
    lemma_nvidia_assignment(c, "SMOOTH_MOTION"@, "SMOOTH_MOTION="@, value);
}

/// What a `REFLEX` line sets.
proof fn lemma_reflex_line(c: NvidiaConfView, value: Seq<char>)
    requires
        trimmed(value) == value,
    ensures
        nvidia_line(c, "REFLEX="@ + value) == (NvidiaConfView { reflex: value != "0"@, ..c }),
{
    reveal_strlit("REFLEX");
    reveal_strlit("REFLEX=");
    lemma_nvidia_keys();
    assert("REFLEX="@ == "REFLEX"@.push('='));
    lemma_nvidia_assignment(c, "REFLEX"@, "REFLEX="@, value);
}

/// What a `VIBRANCE` line sets.
proof fn lemma_vibrance_line(c: NvidiaConfView, value: Seq<char>)
    requires
        trimmed(value) == value,
    ensures
        nvidia_line(c, "VIBRANCE="@ + value) == (NvidiaConfView { vibrance: signed_or(value, c.vibrance), ..c }),
{
    reveal_strlit("VIBRANCE");
    reveal_strlit("VIBRANCE=");
    lemma_nvidia_keys();
    assert("VIBRANCE="@ == "VIBRANCE"@.push('='));
    lemma_nvidia_assignment(c, "VIBRANCE"@, "VIBRANCE="@, value);
}

/// What a `UPSCALE` line sets.
proof fn lemma_upscale_line(c: NvidiaConfView, value: Seq<char>)
    requires
        trimmed(value) == value,
    ensures
        nvidia_line(c, "UPSCALE="@ + value) == (NvidiaConfView { upscale: value, ..c }),
{
    reveal_strlit("UPSCALE");
    reveal_strlit("UPSCALE=");
    lemma_nvidia_keys();
    assert("UPSCALE="@ == "UPSCALE"@.push('='));
    lemma_nvidia_assignment(c, "UPSCALE"@, "UPSCALE="@, value);
}

/// What a `DLDSR` line sets.
proof fn lemma_dldsr_line(c: NvidiaConfView, value: Seq<char>)
    requires
        trimmed(value) == value,
    ensures
        nvidia_line(c, "DLDSR="@ + value) == (NvidiaConfView { dldsr: value == "1"@, ..c }),
{
    reveal_strlit("DLDSR");
    reveal_strlit("DLDSR=");
    lemma_nvidia_keys();
    assert("DLDSR="@ == "DLDSR"@.push('='));
    lemma_nvidia_assignment(c, "DLDSR"@, "DLDSR="@, value);
}

/// What a `GS_WIDTH` line sets.
proof fn lemma_gs_width_line(c: NvidiaConfView, value: Seq<char>)
    requires
        trimmed(value) == value,
    ensures
        nvidia_line(c, "GS_WIDTH="@ + value) == (NvidiaConfView { gs_width: number_or(value, c.gs_width), ..c }),
{
    reveal_strlit("GS_WIDTH");
    reveal_strlit("GS_WIDTH=");
    lemma_nvidia_keys();
    assert("GS_WIDTH="@ == "GS_WIDTH"@.push('='));
    lemma_nvidia_assignment(c, "GS_WIDTH"@, "GS_WIDTH="@, value);
}

/// What a `GS_HEIGHT` line sets.
proof fn lemma_gs_height_line(c: NvidiaConfView, value: Seq<char>)
    requires
        trimmed(value) == value,
    ensures
        nvidia_line(c, "GS_HEIGHT="@ + value) == (NvidiaConfView { gs_height: number_or(value, c.gs_height), ..c }),
{
    reveal_strlit("GS_HEIGHT");
    reveal_strlit("GS_HEIGHT=");
    lemma_nvidia_keys();
    assert("GS_HEIGHT="@ == "GS_HEIGHT"@.push('='));
    lemma_nvidia_assignment(c, "GS_HEIGHT"@, "GS_HEIGHT="@, value);
}

/// What a `GS_FPS` line sets.
proof fn lemma_gs_fps_line(c: NvidiaConfView, value: Seq<char>)
    requires
        trimmed(value) == value,
    ensures
        nvidia_line(c, "GS_FPS="@ + value) == (NvidiaConfView { gs_fps: number_or(value, c.gs_fps), ..c }),
{
    reveal_strlit("GS_FPS");
    reveal_strlit("GS_FPS=");
    lemma_nvidia_keys();
    assert("GS_FPS="@ == "GS_FPS"@.push('='));
    lemma_nvidia_assignment(c, "GS_FPS"@, "GS_FPS="@, value);
}

/// Decimal numbers hold no white space and no line feed.
proof fn lemma_decimal_plain(n: nat)
    ensures
        trimmed(decimal(n)) == decimal(n),
        !decimal(n).contains('\n'),
{
    lemma_decimal_value(n);
    let s = decimal(n);
    assert(s[s.len() - 1] == s.last());
}

/// The digit of a switch holds no white space and no line feed.
proof fn lemma_switch_plain(on: bool)
    ensures
        trimmed(switch_digit(on)) == switch_digit(on),
        !switch_digit(on).contains('\n'),
{
    reveal_strlit("0");
    reveal_strlit("1");
}

/// Signed decimal numbers hold no white space and no line feed.
proof fn lemma_signed_plain(n: int)
    ensures
        trimmed(signed_decimal(n)) == signed_decimal(n),
        !signed_decimal(n).contains('\n'),
{
    let s = signed_decimal(n);
    if n < 0 {
        let d = decimal((-n) as nat);
        lemma_decimal_value((-n) as nat);
        lemma_decimal_plain((-n) as nat);
        assert(s.last() == d.last());
        assert(d[d.len() - 1] == d.last());
        assert forall|i: int| 0 <= i < s.len() implies s[i] != '\n' by {
            if i > 0 {
                assert(s[i] == d[i - 1]);
            }
        }
    } else {
        lemma_decimal_plain(n as nat);
    }
}

/// Joining two texts brings no line feed.
proof fn lemma_no_line_feed(a: Seq<char>, b: Seq<char>)
    requires
        !a.contains('\n'),
        !b.contains('\n'),
    ensures
        !(a + b).contains('\n'),
{
    assert forall|i: int| 0 <= i < (a + b).len() implies (a + b)[i] != '\n' by {
        if i < a.len() {
            assert((a + b)[i] == a[i]);
        } else {
            assert((a + b)[i] == b[i - a.len()]);
        }
    }
}

/// The settings after one line more.
proof fn lemma_nvidia_step(base: NvidiaConfView, lines: Seq<Seq<char>>, i: int)
    requires
        0 <= i < lines.len(),
    ensures
        nvidia_lines(base, lines.take(i + 1)) == nvidia_line(
            nvidia_lines(base, lines.take(i)),
            lines[i],
        ),
{
    assert(lines.take(i + 1).drop_last() == lines.take(i));
}

/// The lines that carry gaming settings hold those settings: read in any
/// state, they replace all of it.
pub proof fn law_nvidia_lines_round_trip(base: NvidiaConfView, c: NvidiaConfView)
    requires
        trimmed(c.upscale) == c.upscale,
    ensures
        nvidia_lines(base, nvidia_assignments(c)) == c,
{
    let lines = nvidia_assignments(c);
    assert(switch_digit(true) != switch_digit(false)) by {
        reveal_strlit("0");
        reveal_strlit("1");
        assert("0"@[0] != "1"@[0]);
    }
    lemma_switch_plain(c.smooth_motion);
    lemma_switch_plain(c.reflex);
    lemma_switch_plain(c.dldsr);
    lemma_signed_plain(c.vibrance as int);
    lemma_decimal_plain(c.gs_width as nat);
    lemma_decimal_plain(c.gs_height as nat);
    lemma_decimal_plain(c.gs_fps as nat);
    law_i32_round_trip(c.vibrance);
    law_u32_round_trip(c.gs_width);
    law_u32_round_trip(c.gs_height);
    law_u32_round_trip(c.gs_fps);
    let c0 = nvidia_lines(base, lines.take(0));
    let c1 = nvidia_lines(base, lines.take(1));
    let c2 = nvidia_lines(base, lines.take(2));
    let c3 = nvidia_lines(base, lines.take(3));
    let c4 = nvidia_lines(base, lines.take(4));
    let c5 = nvidia_lines(base, lines.take(5));
    let c6 = nvidia_lines(base, lines.take(6));
    let c7 = nvidia_lines(base, lines.take(7));
    let c8 = nvidia_lines(base, lines.take(8));
    assert(lines.take(8) == lines);
    lemma_nvidia_step(base, lines, 0);
    lemma_nvidia_step(base, lines, 1);
    lemma_nvidia_step(base, lines, 2);
    lemma_nvidia_step(base, lines, 3);
    lemma_nvidia_step(base, lines, 4);
    lemma_nvidia_step(base, lines, 5);
    lemma_nvidia_step(base, lines, 6);
    lemma_nvidia_step(base, lines, 7);
    lemma_smooth_motion_line(c0, switch_digit(c.smooth_motion));
    lemma_reflex_line(c1, switch_digit(c.reflex));
    lemma_vibrance_line(c2, signed_decimal(c.vibrance as int));
    lemma_upscale_line(c3, c.upscale);
    lemma_dldsr_line(c4, switch_digit(c.dldsr));
    lemma_gs_width_line(c5, decimal(c.gs_width as nat));
    lemma_gs_height_line(c6, decimal(c.gs_height as nat));
    lemma_gs_fps_line(c7, decimal(c.gs_fps as nat));
    assert(c8 == c);
}

/// Reading back a file of saved gaming settings gives the settings that were
/// saved, for an upscaler name that is trimmed and stands on one line.
pub proof fn law_nvidia_round_trip(c: NvidiaConfView)
    requires
        trimmed(c.upscale) == c.upscale,
        !c.upscale.contains('\n'),
    ensures
        nvidia_conf_of(file_text(nvidia_assignments(c))) == c,
{
    reveal_strlit("SMOOTH_MOTION=");
    reveal_strlit("REFLEX=");
    reveal_strlit("VIBRANCE=");
    reveal_strlit("UPSCALE=");
    reveal_strlit("DLDSR=");
    reveal_strlit("GS_WIDTH=");
    reveal_strlit("GS_HEIGHT=");
    reveal_strlit("GS_FPS=");
    let lines = nvidia_assignments(c);
    lemma_switch_plain(c.smooth_motion);
    lemma_switch_plain(c.reflex);
    lemma_switch_plain(c.dldsr);
    lemma_signed_plain(c.vibrance as int);
    lemma_decimal_plain(c.gs_width as nat);
    lemma_decimal_plain(c.gs_height as nat);
    lemma_decimal_plain(c.gs_fps as nat);
    lemma_no_line_feed("SMOOTH_MOTION="@, switch_digit(c.smooth_motion));
    lemma_no_line_feed("REFLEX="@, switch_digit(c.reflex));
    lemma_no_line_feed("VIBRANCE="@, signed_decimal(c.vibrance as int));
    lemma_no_line_feed("UPSCALE="@, c.upscale);
    lemma_no_line_feed("DLDSR="@, switch_digit(c.dldsr));
    lemma_no_line_feed("GS_WIDTH="@, decimal(c.gs_width as nat));
    lemma_no_line_feed("GS_HEIGHT="@, decimal(c.gs_height as nat));
    lemma_no_line_feed("GS_FPS="@, decimal(c.gs_fps as nat));
    lemma_file_lines(lines);
    law_nvidia_lines_round_trip(default_nvidia(), c);
    let none = Seq::<char>::empty();
    assert(lines.push(none).drop_last() == lines);
    assert(cut(none, '=') is None);
}

/// What tells the keys of the HDR settings apart.
proof fn lemma_hdr_keys()
    ensures
        "SDR_NITS"@.len() == 8,
        "PEAK_NITS"@.len() == 9,
        "GAMUT"@.len() == 5,
        "MAX_BPC"@.len() == 7,
        "GAMUT_MODE"@.len() == 10,
        "SATURATION"@.len() == 10,
        "MIDTONE_GAMMA"@.len() == 13,
        "OLED_PRESET"@.len() == 11,
        "OLED_DIM_MIN"@.len() == 12,
        "GAMUT_MODE"@[0] == 'G',
        "SATURATION"@[0] == 'S',
{
    reveal_strlit("SDR_NITS");
    reveal_strlit("PEAK_NITS");
    reveal_strlit("GAMUT");
    reveal_strlit("MAX_BPC");
    reveal_strlit("GAMUT_MODE");
    reveal_strlit("SATURATION");
    reveal_strlit("MIDTONE_GAMMA");
    reveal_strlit("OLED_PRESET");
    reveal_strlit("OLED_DIM_MIN");
}

/// A setting after a value was read for it: the number that the value spells,
/// or what it was.
pub open spec fn reads_as(value: Seq<char>, was: u32, now: u32) -> bool {
    match parsed_u32(trimmed(value)) {
        Some(n) => now == n,
        None => now == was,
    }
}

/// A line of the HDR settings file changes the setting that its key names, and
/// no other; a line with another key changes nothing.
pub proof fn law_hdr_line_sets(c: HdrConfView, k: Seq<char>, v: Seq<char>)
    requires
        !k.contains('='),
    ensures
        ({
            let key = trimmed(k);
            let now = hdr_line(c, k.push('=') + v);
            &&& key == "SDR_NITS"@ ==> reads_as(v, c.sdr_nits, now.sdr_nits) && now == (
            HdrConfView { sdr_nits: now.sdr_nits, ..c })
            &&& key == "PEAK_NITS"@ ==> reads_as(v, c.peak_nits, now.peak_nits) && now == (
            HdrConfView { peak_nits: now.peak_nits, ..c })
            &&& key == "GAMUT"@ ==> reads_as(v, c.gamut, now.gamut) && now == (HdrConfView {
                gamut: now.gamut,
                ..c
            })
            &&& key == "MAX_BPC"@ ==> reads_as(v, c.max_bpc, now.max_bpc) && now == (HdrConfView {
                max_bpc: now.max_bpc,
                ..c
            })
            &&& key == "GAMUT_MODE"@ ==> now == (HdrConfView { gamut_mode: trimmed(v), ..c })
            &&& key == "SATURATION"@ ==> reads_as(v, c.saturation, now.saturation) && now == (
            HdrConfView { saturation: now.saturation, ..c })
            &&& key == "MIDTONE_GAMMA"@ ==> reads_as(v, c.midtone_gamma, now.midtone_gamma) && now
                == (HdrConfView { midtone_gamma: now.midtone_gamma, ..c })
            &&& key == "OLED_PRESET"@ ==> now == (HdrConfView {
                oled_preset: trimmed(v) == "1"@,
                ..c
            })
            &&& key == "OLED_DIM_MIN"@ ==> reads_as(v, c.oled_dim_min, now.oled_dim_min) && now
                == (HdrConfView { oled_dim_min: now.oled_dim_min, ..c })
            &&& key != "SDR_NITS"@ && key != "PEAK_NITS"@ && key != "GAMUT"@ && key != "MAX_BPC"@
                && key != "GAMUT_MODE"@ && key != "SATURATION"@ && key != "MIDTONE_GAMMA"@ && key
                != "OLED_PRESET"@ && key != "OLED_DIM_MIN"@ ==> now == c
        }),
        hdr_line(c, k) == c,
{
    lemma_hdr_keys();
    lemma_cut_joined(k, v, '=');
    law_cut(k, '=');
    if let Some((a, b)) = cut(k, '=') {
        assert(k[a.len() as int] == '=');
    }
}

/// A line of the gaming settings file changes the setting that its key names,
/// and no other; a line with another key changes nothing.
pub proof fn law_nvidia_line_sets(c: NvidiaConfView, k: Seq<char>, v: Seq<char>)
    requires
        !k.contains('='),
    ensures
        ({
            let key = trimmed(k);
            let now = nvidia_line(c, k.push('=') + v);
            &&& key == "SMOOTH_MOTION"@ ==> now == (NvidiaConfView {
                smooth_motion: trimmed(v) != "0"@,
                ..c
            })
            &&& key == "REFLEX"@ ==> now == (NvidiaConfView { reflex: trimmed(v) != "0"@, ..c })
            &&& key == "VIBRANCE"@ ==> now == (NvidiaConfView {
                vibrance: match parsed_i32(trimmed(v)) {
                    Some(n) => n,
                    None => c.vibrance,
                },
                ..c
            })
            &&& key == "UPSCALE"@ ==> now == (NvidiaConfView { upscale: trimmed(v), ..c })
            &&& key == "DLDSR"@ ==> now == (NvidiaConfView { dldsr: trimmed(v) == "1"@, ..c })
            &&& key == "GS_WIDTH"@ ==> reads_as(v, c.gs_width, now.gs_width) && now == (
            NvidiaConfView { gs_width: now.gs_width, ..c })
            &&& key == "GS_HEIGHT"@ ==> reads_as(v, c.gs_height, now.gs_height) && now == (
            NvidiaConfView { gs_height: now.gs_height, ..c })
            &&& key == "GS_FPS"@ ==> reads_as(v, c.gs_fps, now.gs_fps) && now == (NvidiaConfView {
                gs_fps: now.gs_fps,
                ..c
            })
            &&& key != "SMOOTH_MOTION"@ && key != "REFLEX"@ && key != "VIBRANCE"@ && key
                != "UPSCALE"@ && key != "DLDSR"@ && key != "GS_WIDTH"@ && key != "GS_HEIGHT"@ && key
                != "GS_FPS"@ ==> now == c
        }),
        nvidia_line(c, k) == c,
{
    lemma_nvidia_keys();
    lemma_cut_joined(k, v, '=');
    law_cut(k, '=');
    if let Some((a, b)) = cut(k, '=') {
        assert(k[a.len() as int] == '=');
    }
}

/// A file of one line acts on the defaults.
pub proof fn law_single_line(line: Seq<char>)
    requires
        !line.contains('\n'),
    ensures
        hdr_conf_of(line) == hdr_line(default_hdr(), line),
        nvidia_conf_of(line) == nvidia_line(default_nvidia(), line),
{
    lemma_split_on_absent(line, '\n');
    assert(seq![line].drop_last() == Seq::<Seq<char>>::empty());
    assert(seq![line].last() == line);
    assert(hdr_lines(default_hdr(), seq![line].drop_last()) == default_hdr());
    assert(nvidia_lines(default_nvidia(), seq![line].drop_last()) == default_nvidia());
}

/// The `i`th pair of a list of options and values is `option` and `value`.
pub open spec fn pair_at(
    args: Seq<Seq<char>>,
    i: int,
    option: Seq<char>,
    value: Seq<char>,
) -> bool {
    0 <= i && 2 * i + 1 < args.len() && args[2 * i] == option && args[2 * i + 1] == value
}

/// A list of options and values gives `option` the value `value`, and no other.
pub open spec fn gives(args: Seq<Seq<char>>, option: Seq<char>, value: Seq<char>) -> bool {
    &&& exists|i: int| pair_at(args, i, option, value)
    &&& forall|i: int, other: Seq<char>| #[trigger]
        pair_at(args, i, option, other) ==> other == value
}

/// What tells the options apart.
proof fn lemma_option_names()
    ensures
        "--sdr-nits"@.len() == 10,
        "--peak-nits"@.len() == 11,
        "--gamut"@.len() == 7,
        "--bpc"@.len() == 5,
        "--gamut-mode"@.len() == 12,
        "--saturation"@.len() == 12,
        "--midtone-gamma"@.len() == 15,
        "--oled-dim-min"@.len() == 14,
        "--gamut-mode"@[2] == 'g',
        "--saturation"@[2] == 's',
{
    reveal_strlit("--sdr-nits");
    reveal_strlit("--peak-nits");
    reveal_strlit("--gamut");
    reveal_strlit("--bpc");
    reveal_strlit("--gamut-mode");
    reveal_strlit("--saturation");
    reveal_strlit("--midtone-gamma");
    reveal_strlit("--oled-dim-min");
}

/// Every option is followed by its own setting, and there are no other
/// options.
pub proof fn law_options_give_settings(c: HdrConfView)
    ensures
        hdr_args(c).len() == 16,
        gives(hdr_args(c), "--sdr-nits"@, decimal(c.sdr_nits as nat)),
        gives(hdr_args(c), "--peak-nits"@, decimal(c.peak_nits as nat)),
        gives(hdr_args(c), "--gamut"@, decimal(c.gamut as nat)),
        gives(hdr_args(c), "--bpc"@, decimal(c.max_bpc as nat)),
        gives(hdr_args(c), "--gamut-mode"@, c.gamut_mode),
        gives(hdr_args(c), "--saturation"@, decimal(c.saturation as nat)),
        gives(hdr_args(c), "--midtone-gamma"@, decimal(c.midtone_gamma as nat)),
        gives(hdr_args(c), "--oled-dim-min"@, decimal(c.oled_dim_min as nat)),
{
    lemma_option_names();
    let args = hdr_args(c);
    assert(pair_at(args, 0, "--sdr-nits"@, decimal(c.sdr_nits as nat)));
    assert(pair_at(args, 1, "--peak-nits"@, decimal(c.peak_nits as nat)));
    assert(pair_at(args, 2, "--gamut"@, decimal(c.gamut as nat)));
    assert(pair_at(args, 3, "--bpc"@, decimal(c.max_bpc as nat)));
    assert(pair_at(args, 4, "--gamut-mode"@, c.gamut_mode));
    assert(pair_at(args, 5, "--saturation"@, decimal(c.saturation as nat)));
    assert(pair_at(args, 6, "--midtone-gamma"@, decimal(c.midtone_gamma as nat)));
    assert(pair_at(args, 7, "--oled-dim-min"@, decimal(c.oled_dim_min as nat)));
}

/// The number behind an option reads back as the setting.
pub proof fn law_options_read_back(c: HdrConfView, value: Seq<char>)
    ensures
        gives(hdr_args(c), "--sdr-nits"@, value) ==> parsed_u32(value) == Some(c.sdr_nits),
        gives(hdr_args(c), "--peak-nits"@, value) ==> parsed_u32(value) == Some(c.peak_nits),
        gives(hdr_args(c), "--gamut"@, value) ==> parsed_u32(value) == Some(c.gamut),
        gives(hdr_args(c), "--bpc"@, value) ==> parsed_u32(value) == Some(c.max_bpc),
        gives(hdr_args(c), "--gamut-mode"@, value) ==> value == c.gamut_mode,
        gives(hdr_args(c), "--saturation"@, value) ==> parsed_u32(value) == Some(c.saturation),
        gives(hdr_args(c), "--midtone-gamma"@, value) ==> parsed_u32(value) == Some(
            c.midtone_gamma,
        ),
        gives(hdr_args(c), "--oled-dim-min"@, value) ==> parsed_u32(value) == Some(c.oled_dim_min),
{
    law_options_give_settings(c);
    law_u32_round_trip(c.sdr_nits);
    law_u32_round_trip(c.peak_nits);
    law_u32_round_trip(c.gamut);
    law_u32_round_trip(c.max_bpc);
    law_u32_round_trip(c.saturation);
    law_u32_round_trip(c.midtone_gamma);
    law_u32_round_trip(c.oled_dim_min);
}

/// Each line that carries gaming settings sets one of them and leaves the
/// others, in any state.
pub proof fn law_each_nvidia_line(base: NvidiaConfView, c: NvidiaConfView)
    requires
        trimmed(c.upscale) == c.upscale,
    ensures
        nvidia_assignments(c).len() == 8,
        nvidia_line(base, nvidia_assignments(c)[0]) == (NvidiaConfView {
            smooth_motion: c.smooth_motion,
            ..base
        }),
        nvidia_line(base, nvidia_assignments(c)[1]) == (NvidiaConfView {
            reflex: c.reflex,
            ..base
        }),
        nvidia_line(base, nvidia_assignments(c)[2]) == (NvidiaConfView {
            vibrance: c.vibrance,
            ..base
        }),
        nvidia_line(base, nvidia_assignments(c)[3]) == (NvidiaConfView {
            upscale: c.upscale,
            ..base
        }),
        nvidia_line(base, nvidia_assignments(c)[4]) == (NvidiaConfView { dldsr: c.dldsr, ..base }),
        nvidia_line(base, nvidia_assignments(c)[5]) == (NvidiaConfView {
            gs_width: c.gs_width,
            ..base
        }),
        nvidia_line(base, nvidia_assignments(c)[6]) == (NvidiaConfView {
            gs_height: c.gs_height,
            ..base
        }),
        nvidia_line(base, nvidia_assignments(c)[7]) == (NvidiaConfView {
            gs_fps: c.gs_fps,
            ..base
        }),
{
    assert(switch_digit(true) != switch_digit(false)) by {
        reveal_strlit("0");
        reveal_strlit("1");
        assert("0"@[0] != "1"@[0]);
    }
    lemma_switch_plain(c.smooth_motion);
    lemma_switch_plain(c.reflex);
    lemma_switch_plain(c.dldsr);
    lemma_signed_plain(c.vibrance as int);
    lemma_decimal_plain(c.gs_width as nat);
    lemma_decimal_plain(c.gs_height as nat);
    lemma_decimal_plain(c.gs_fps as nat);
    law_i32_round_trip(c.vibrance);
    law_u32_round_trip(c.gs_width);
    law_u32_round_trip(c.gs_height);
    law_u32_round_trip(c.gs_fps);
    lemma_smooth_motion_line(base, switch_digit(c.smooth_motion));
    lemma_reflex_line(base, switch_digit(c.reflex));
    lemma_vibrance_line(base, signed_decimal(c.vibrance as int));
    lemma_upscale_line(base, c.upscale);
    lemma_dldsr_line(base, switch_digit(c.dldsr));
    lemma_gs_width_line(base, decimal(c.gs_width as nat));
    lemma_gs_height_line(base, decimal(c.gs_height as nat));
    lemma_gs_fps_line(base, decimal(c.gs_fps as nat));
}

/// The upscaler's line carries its name as it stands, also where it has white
/// space that reading drops.
pub proof fn law_upscaler_line(c: NvidiaConfView)
    ensures
        nvidia_assignments(c)[3] == "UPSCALE="@ + c.upscale,
{
}

/// The contents of settings are their fields, each in its place.
pub proof fn law_settings_contents(c: HdrConf, n: NvidiaConf)
    ensures
        c@.sdr_nits == c.sdr_nits,
        c@.peak_nits == c.peak_nits,
        c@.gamut == c.gamut,
        c@.max_bpc == c.max_bpc,
        c@.gamut_mode == c.gamut_mode@,
        c@.saturation == c.saturation,
        c@.midtone_gamma == c.midtone_gamma,
        c@.oled_preset == c.oled_preset,
        c@.oled_dim_min == c.oled_dim_min,
        n@.smooth_motion == n.smooth_motion,
        n@.reflex == n.reflex,
        n@.vibrance == n.vibrance,
        n@.upscale == n.upscale@,
        n@.dldsr == n.dldsr,
        n@.gs_width == n.gs_width,
        n@.gs_height == n.gs_height,
        n@.gs_fps == n.gs_fps,
{
}

} // verus!
