//! The state of the panel, the messages it takes, and what it does on them.

use vstd::prelude::*;

use crate::calib::{calibrate_args, calibration_args, pattern_args, show_pattern_args, CalibPattern};
use crate::conf::{default_hdr, joined, HdrConf, HdrConfView, NvidiaConf, NvidiaConfView};
use crate::edid::{opt_text, DisplayInfo, DisplayInfoView};
use crate::text::{same_text, strings};

verus! {

/// What the user or a finished task tells the panel.
#[derive(Debug)]
pub enum Message {
    HdrToggle(bool),
    SdrNits(u32),
    PeakNits(u32),
    Gamut(u32),
    GamutMode(usize),
    Saturation(u32),
    MidtoneGamma(u32),
    BitDepth(usize),
    Apply,
    Reset,
    Applied(Result<(), String>),
    ShowCalPat(CalibPattern),
    CalibrateHdr,
    CloseCalPat,
    OledPreset(bool),
    OledDimTimeout(u32),
    NvSmoothMotion(bool),
    NvReflex(bool),
    NvVibrance(i32),
    NvUpscale(usize),
    NvDldsr(bool),
    NvGsResolution(u32, u32),
    NvGsFps(u32),
    NvApply,
    NvApplied(Result<(), String>),
}

/// A copy of a result without a value.
fn copy_result(r: &Result<(), String>) -> (c: Result<(), String>)
    ensures
        c == *r,
{
    match r {
        Ok(unit) => Ok(*unit),
        Err(e) => Err(e.clone()),
    }
}

impl Clone for Message {
    fn clone(&self) -> (r: Self)
        ensures
            r == *self,
    {
        match self {
            Message::HdrToggle(v) => Message::HdrToggle(*v),
            Message::SdrNits(v) => Message::SdrNits(*v),
            Message::PeakNits(v) => Message::PeakNits(*v),
            Message::Gamut(v) => Message::Gamut(*v),
            Message::GamutMode(i) => Message::GamutMode(*i),
            Message::Saturation(v) => Message::Saturation(*v),
            Message::MidtoneGamma(v) => Message::MidtoneGamma(*v),
            Message::BitDepth(i) => Message::BitDepth(*i),
            Message::Apply => Message::Apply,
            Message::Reset => Message::Reset,
            Message::Applied(r) => Message::Applied(copy_result(r)),
            Message::ShowCalPat(p) => Message::ShowCalPat(*p),
            Message::CalibrateHdr => Message::CalibrateHdr,
            Message::CloseCalPat => Message::CloseCalPat,
            Message::OledPreset(v) => Message::OledPreset(*v),
            Message::OledDimTimeout(v) => Message::OledDimTimeout(*v),
            Message::NvSmoothMotion(v) => Message::NvSmoothMotion(*v),
            Message::NvReflex(v) => Message::NvReflex(*v),
            Message::NvVibrance(v) => Message::NvVibrance(*v),
            Message::NvUpscale(i) => Message::NvUpscale(*i),
            Message::NvDldsr(v) => Message::NvDldsr(*v),
            Message::NvGsResolution(w, h) => Message::NvGsResolution(*w, *h),
            Message::NvGsFps(v) => Message::NvGsFps(*v),
            Message::NvApply => Message::NvApply,
            Message::NvApplied(r) => Message::NvApplied(copy_result(r)),
        }
    }
}

/// The panel's state.
#[derive(Debug)]
pub struct CosmicHdr {
    pub conf: HdrConf,
    pub nvidia_conf: NvidiaConf,
    pub is_nvidia: bool,
    pub gpu_vendor: &'static str,
    pub hdr_enabled: bool,
    pub display: Option<DisplayInfo>,
    pub status: Option<String>,
    /// Whether a calibration window is open.
    pub cal_open: bool,
}

/// The contents of the panel's state.
pub struct CosmicHdrView {
    pub conf: HdrConfView,
    pub nvidia_conf: NvidiaConfView,
    pub is_nvidia: bool,
    pub gpu_vendor: Seq<char>,
    pub hdr_enabled: bool,
    pub display: Option<DisplayInfoView>,
    pub status: Option<Seq<char>>,
    pub cal_open: bool,
}

/// The contents of an optional display description.
pub open spec fn opt_display(d: Option<DisplayInfo>) -> Option<DisplayInfoView> {
    match d {
        Some(i) => Some(i@),
        None => None,
    }
}

impl View for CosmicHdr {
    type V = CosmicHdrView;

    open spec fn view(&self) -> CosmicHdrView {
        CosmicHdrView {
            conf: self.conf@,
            nvidia_conf: self.nvidia_conf@,
            is_nvidia: self.is_nvidia,
            gpu_vendor: self.gpu_vendor@,
            hdr_enabled: self.hdr_enabled,
            display: opt_display(self.display),
            status: opt_text(self.status),
            cal_open: self.cal_open,
        }
    }
}

/// What the panel asks for after a message.
#[derive(Debug)]
pub enum Action {
    /// Nothing.
    Rest,
    /// Save and apply these settings, and report the result.
    ApplyConf(HdrConf),
    /// Turn HDR off, and report the result.
    ResetHdr,
    /// Save these gaming settings, and report the result.
    SaveGame(NvidiaConf),
    /// Close the calibration window, and open one with these arguments.
    OpenCalibration(Vec<String>),
    /// Close the calibration window.
    CloseCalibration,
}

/// The contents of an action.
pub enum ActionView {
    Rest,
    ApplyConf(HdrConfView),
    ResetHdr,
    SaveGame(NvidiaConfView),
    OpenCalibration(Seq<Seq<char>>),
    CloseCalibration,
}

impl View for Action {
    type V = ActionView;

    open spec fn view(&self) -> ActionView {
        match self {
            Action::Rest => ActionView::Rest,
            Action::ApplyConf(c) => ActionView::ApplyConf(c@),
            Action::ResetHdr => ActionView::ResetHdr,
            Action::SaveGame(c) => ActionView::SaveGame(c@),
            Action::OpenCalibration(args) => ActionView::OpenCalibration(strings(args@)),
            Action::CloseCalibration => ActionView::CloseCalibration,
        }
    }
}

/// The gamut at a position of its menu; positions behind the end stand for
/// the last one.
pub open spec fn gamut_name(i: usize) -> Seq<char> {
    if i == 0 {
        "bt2020"@
    } else if i == 1 {
        "dci-p3"@
    } else {
        "srgb"@
    }
}

/// The bit depth at a position of its menu; positions behind the end stand
/// for the last one.
pub open spec fn bit_depth(i: usize) -> u32 {
    if i == 0 {
        8
    } else if i == 1 {
        10
    } else {
        12
    }
}

/// The upscaler at a position of its menu; positions behind the end stand for
/// the last one.
pub open spec fn upscale_name(i: usize) -> Seq<char> {
    if i == 0 {
        "none"@
    } else if i == 1 {
        "fsr"@
    } else if i == 2 {
        "nis"@
    } else if i == 3 {
        "dlss"@
    } else {
        "integer"@
    }
}

/// The settings after a message.
pub open spec fn updated_conf(c: HdrConfView, msg: Message) -> HdrConfView {
    match msg {
        Message::SdrNits(v) => HdrConfView { sdr_nits: v, ..c },
        Message::PeakNits(v) => HdrConfView { peak_nits: v, ..c },
        Message::Gamut(v) => HdrConfView { gamut: v, ..c },
        Message::GamutMode(i) => HdrConfView { gamut_mode: gamut_name(i), ..c },
        Message::Saturation(v) => HdrConfView { saturation: v, ..c },
        Message::MidtoneGamma(v) => HdrConfView { midtone_gamma: v, ..c },
        Message::BitDepth(i) => HdrConfView { max_bpc: bit_depth(i), ..c },
        Message::OledPreset(on) => if on {
            HdrConfView { oled_preset: true, sdr_nits: 150, peak_nits: 600, ..c }
        } else {
            HdrConfView { oled_preset: false, sdr_nits: 203, peak_nits: 800, ..c }
        },
        Message::OledDimTimeout(v) => HdrConfView { oled_dim_min: v, ..c },
        _ => c,
    }
}

/// The gaming settings after a message.
pub open spec fn updated_nvidia(c: NvidiaConfView, msg: Message) -> NvidiaConfView {
    match msg {
        Message::NvSmoothMotion(v) => NvidiaConfView { smooth_motion: v, ..c },
        Message::NvReflex(v) => NvidiaConfView { reflex: v, ..c },
        Message::NvVibrance(v) => NvidiaConfView { vibrance: v, ..c },
        Message::NvUpscale(i) => NvidiaConfView { upscale: upscale_name(i), ..c },
        Message::NvDldsr(v) => NvidiaConfView { dldsr: v, ..c },
        Message::NvGsResolution(w, h) => NvidiaConfView { gs_width: w, gs_height: h, ..c },
        Message::NvGsFps(v) => NvidiaConfView { gs_fps: v, ..c },
        _ => c,
    }
}

/// The status line that a message brings, where it brings one.
pub open spec fn status_for(msg: Message, daemon_alive: bool) -> Option<Seq<char>> {
    match msg {
        Message::Apply => Some(
            if daemon_alive {
                "Signalling daemon…"@
            } else {
                "Applying…"@
            },
        ),
        Message::Reset => Some("Resetting…"@),
        Message::Applied(Ok(())) => Some(
            if daemon_alive {
                "Conf saved — daemon re-applying ✓"@
            } else {
                "Applied ✓"@
            },
        ),
        Message::Applied(Err(e)) => Some("Error: "@ + e@),
        Message::NvApply => Some("Saving NVIDIA settings…"@),
        Message::NvApplied(Ok(())) => Some("NVIDIA settings saved ✓"@),
        Message::NvApplied(Err(e)) => Some("NVIDIA error: "@ + e@),
        _ => None,
    }
}

/// The state after a message.
pub open spec fn updated(s: CosmicHdrView, msg: Message, daemon_alive: bool) -> CosmicHdrView {
    CosmicHdrView {
        conf: updated_conf(s.conf, msg),
        nvidia_conf: updated_nvidia(s.nvidia_conf, msg),
        hdr_enabled: match msg {
            Message::HdrToggle(on) => on,
            Message::Reset => false,
            _ => s.hdr_enabled,
        },
        status: match status_for(msg, daemon_alive) {
            Some(text) => Some(text),
            None => s.status,
        },
        cal_open: match msg {
            Message::ShowCalPat(_) => false,
            Message::CalibrateHdr => false,
            Message::CloseCalPat => false,
            _ => s.cal_open,
        },
        ..s
    }
}

/// What a message asks for.
pub open spec fn action_for(s: CosmicHdrView, msg: Message) -> ActionView {
    match msg {
        Message::HdrToggle(on) => if on {
            ActionView::ApplyConf(s.conf)
        } else {
            ActionView::ResetHdr
        },
        Message::Apply => ActionView::ApplyConf(s.conf),
        Message::Reset => ActionView::ResetHdr,
        Message::NvApply => ActionView::SaveGame(s.nvidia_conf),
        Message::ShowCalPat(p) => ActionView::OpenCalibration(pattern_args(p)),
        Message::CalibrateHdr => ActionView::OpenCalibration(calibration_args(s.conf)),
        Message::CloseCalPat => ActionView::CloseCalibration,
        _ => ActionView::Rest,
    }
}

/// The state after a calibration window was to be opened.
pub open spec fn calibration_opened(
    s: CosmicHdrView,
    result: Result<(), String>,
) -> CosmicHdrView {
    match result {
        Ok(()) => CosmicHdrView { cal_open: true, ..s },
        Err(e) => CosmicHdrView { status: Some("hdr-cal: "@ + e@), ..s },
    }
}

/// The gamut at a position of its menu.
fn gamut_at(i: usize) -> (r: &'static str)
    ensures
        r@ == gamut_name(i),
{
    match i {
        0 => "bt2020",
        1 => "dci-p3",
        _ => "srgb",
    }
}

/// The bit depth at a position of its menu.
fn bit_depth_at(i: usize) -> (r: u32)
    ensures
        r == bit_depth(i),
{
    match i {
        0 => 8,
        1 => 10,
        _ => 12,
    }
}

/// The upscaler at a position of its menu.
fn upscale_at(i: usize) -> (r: &'static str)
    ensures
        r@ == upscale_name(i),
{
    match i {
        0 => "none",
        1 => "fsr",
        2 => "nis",
        3 => "dlss",
        _ => "integer",
    }
}

/// The state that the panel starts in.
pub open spec fn started(
    conf: HdrConfView,
    nvidia_conf: NvidiaConfView,
    gpu_vendor: Seq<char>,
    hdr_enabled: bool,
    display: Option<DisplayInfoView>,
) -> CosmicHdrView {
    CosmicHdrView {
        conf,
        nvidia_conf,
        is_nvidia: gpu_vendor == "nvidia"@,
        gpu_vendor,
        hdr_enabled,
        display,
        status: None,
        cal_open: false,
    }
}

impl CosmicHdr {
    /// The panel as it starts.
    pub fn init(
        conf: HdrConf,
        nvidia_conf: NvidiaConf,
        gpu_vendor: &'static str,
        hdr_enabled: bool,
        display: Option<DisplayInfo>,
    ) -> (s: CosmicHdr)
        ensures
            s@ == (CosmicHdrView {
                conf: conf@,
                nvidia_conf: nvidia_conf@,
                is_nvidia: gpu_vendor@ == "nvidia"@,
                gpu_vendor: gpu_vendor@,
                hdr_enabled,
                display: opt_display(display),
                status: None,
                cal_open: false,
            }),
            s@ == started(conf@, nvidia_conf@, gpu_vendor@, hdr_enabled, opt_display(display)),
    {
        CosmicHdr {
            conf,
            nvidia_conf,
            is_nvidia: same_text(gpu_vendor, "nvidia"),
            gpu_vendor,
            hdr_enabled,
            display,
            status: None,
            cal_open: false,
        }
    }

    /// Takes a message. `daemon_alive` says whether the daemon is alive now.
    #[verifier::rlimit(50)]
    pub fn update(&mut self, msg: Message, daemon_alive: bool) -> (action: Action)
        ensures
            final(self)@ == updated(old(self)@, msg, daemon_alive),
            action@ == action_for(old(self)@, msg),
    {
        match msg {
            Message::HdrToggle(on) => {
                self.hdr_enabled = on;
                return if on {
                    Action::ApplyConf(self.conf.clone())
                } else {
                    Action::ResetHdr
                };
            },
            Message::SdrNits(v) => {
                self.conf.sdr_nits = v;
            },
            Message::PeakNits(v) => {
                self.conf.peak_nits = v;
            },
            Message::Gamut(v) => {
                self.conf.gamut = v;
            },
            Message::GamutMode(i) => {
                self.conf.gamut_mode = gamut_at(i).to_owned();
            },
            Message::Saturation(v) => {
                self.conf.saturation = v;
            },
            Message::MidtoneGamma(v) => {
                self.conf.midtone_gamma = v;
            },
            Message::BitDepth(i) => {
                self.conf.max_bpc = bit_depth_at(i);
            },
            Message::Apply => {
                self.status = Some(
                    if daemon_alive {
                        "Signalling daemon…".to_owned()
                    } else {
                        "Applying…".to_owned()
                    },
                );
                return Action::ApplyConf(self.conf.clone());
            },
            Message::Reset => {
                self.hdr_enabled = false;
                self.status = Some("Resetting…".to_owned());
                return Action::ResetHdr;
            },
            Message::Applied(Ok(())) => {
                self.status = Some(
                    if daemon_alive {
                        "Conf saved — daemon re-applying ✓".to_owned()
                    } else {
                        "Applied ✓".to_owned()
                    },
                );
            },
            Message::Applied(Err(e)) => {
                self.status = Some(joined("Error: ", e.as_str()));
            },
            Message::ShowCalPat(p) => {
                self.cal_open = false;
                return Action::OpenCalibration(show_pattern_args(p));
            },
            Message::CalibrateHdr => {
                self.cal_open = false;
                return Action::OpenCalibration(calibrate_args(&self.conf));
            },
            Message::CloseCalPat => {
                self.cal_open = false;
                return Action::CloseCalibration;
            },
            Message::OledPreset(on) => {
                self.conf.oled_preset = on;
                if on {
                    self.conf.sdr_nits = 150;
                    self.conf.peak_nits = 600;
                } else {
                    self.conf.sdr_nits = 203;
                    self.conf.peak_nits = 800;
                }
            },
            Message::OledDimTimeout(v) => {
                self.conf.oled_dim_min = v;
            },
            Message::NvSmoothMotion(v) => {
                self.nvidia_conf.smooth_motion = v;
            },
            Message::NvReflex(v) => {
                self.nvidia_conf.reflex = v;
            },
            Message::NvVibrance(v) => {
                self.nvidia_conf.vibrance = v;
            },
            Message::NvUpscale(i) => {
                self.nvidia_conf.upscale = upscale_at(i).to_owned();
            },
            Message::NvDldsr(v) => {
                self.nvidia_conf.dldsr = v;
            },
            Message::NvGsResolution(w, h) => {
                self.nvidia_conf.gs_width = w;
                self.nvidia_conf.gs_height = h;
            },
            Message::NvGsFps(v) => {
                self.nvidia_conf.gs_fps = v;
            },
            Message::NvApply => {
                self.status = Some("Saving NVIDIA settings…".to_owned());
                return Action::SaveGame(self.nvidia_conf.clone());
            },
            Message::NvApplied(Ok(())) => {
                self.status = Some("NVIDIA settings saved ✓".to_owned());
            },
            Message::NvApplied(Err(e)) => {
                self.status = Some(joined("NVIDIA error: ", e.as_str()));
            },
        }
        Action::Rest
    }

    /// Takes the result of opening a calibration window.
    pub fn calibration_started(&mut self, result: Result<(), String>)
        ensures
            final(self)@ == calibration_opened(old(self)@, result),
    {
        match result {
            Ok(()) => {
                self.cal_open = true;
            },
            Err(e) => {
                self.status = Some(joined("hdr-cal: ", e.as_str()));
            },
        }
    }
}

/// What holds of every state that the panel reaches: the vendor it shows and
/// the sections it shows for NVIDIA hardware agree.
pub open spec fn consistent(s: CosmicHdrView) -> bool {
    s.is_nvidia <==> s.gpu_vendor == "nvidia"@
}

/// No message and no calibration window changes what the panel knows of the
/// hardware, so a consistent state stays consistent.
pub proof fn law_hardware_stays(
    s: CosmicHdrView,
    msg: Message,
    daemon_alive: bool,
    opened: Result<(), String>,
)
    ensures
        updated(s, msg, daemon_alive).display == s.display,
        updated(s, msg, daemon_alive).gpu_vendor == s.gpu_vendor,
        updated(s, msg, daemon_alive).is_nvidia == s.is_nvidia,
        consistent(s) ==> consistent(updated(s, msg, daemon_alive)),
        consistent(s) ==> consistent(calibration_opened(s, opened)),
{
}

/// A message either changes settings or asks for something, never both: what
/// is applied, saved or calibrated are the settings that the panel keeps.
pub proof fn law_settings_or_action(s: CosmicHdrView, msg: Message, daemon_alive: bool)
    ensures
        action_for(s, msg) is Rest || (updated(s, msg, daemon_alive).conf == s.conf && updated(
            s,
            msg,
            daemon_alive,
        ).nvidia_conf == s.nvidia_conf),
{
}

/// HDR settings and gaming settings do not meet: no message changes both.
pub proof fn law_settings_apart(s: CosmicHdrView, msg: Message, daemon_alive: bool)
    ensures
        updated(s, msg, daemon_alive).conf == s.conf || updated(s, msg, daemon_alive).nvidia_conf
            == s.nvidia_conf,
{
}

/// The daemon's state shows in the status line alone.
pub proof fn law_daemon_shows_in_status(s: CosmicHdrView, msg: Message)
    ensures
        (CosmicHdrView { status: s.status, ..updated(s, msg, true) }) == (CosmicHdrView {
            status: s.status,
            ..updated(s, msg, false)
        }),
{
}

/// Leaving the longevity preset brings back the default brightness, whatever
/// came before.
pub proof fn law_preset_off_restores_defaults(s: CosmicHdrView, daemon_alive: bool)
    ensures
        updated(s, Message::OledPreset(false), daemon_alive).conf.sdr_nits
            == default_hdr().sdr_nits,
        updated(s, Message::OledPreset(false), daemon_alive).conf.peak_nits
            == default_hdr().peak_nits,
        updated(
            updated(s, Message::OledPreset(true), daemon_alive),
            Message::OledPreset(false),
            daemon_alive,
        ) == updated(s, Message::OledPreset(false), daemon_alive),
{
}

/// Switching HDR off by the toggle and by the reset button is the same but
/// for the status line.
pub proof fn law_two_ways_off(s: CosmicHdrView, daemon_alive: bool)
    ensures
        action_for(s, Message::HdrToggle(false)) == action_for(s, Message::Reset),
        (CosmicHdrView {
            status: s.status,
            ..updated(s, Message::Reset, daemon_alive)
        }) == updated(s, Message::HdrToggle(false), daemon_alive),
{
}

/// The panel starts with what was read, consistent, with nothing to say and no
/// window open.
pub proof fn law_started(
    conf: HdrConfView,
    nvidia_conf: NvidiaConfView,
    gpu_vendor: Seq<char>,
    hdr_enabled: bool,
    display: Option<DisplayInfoView>,
)
    ensures
        ({
            let s = started(conf, nvidia_conf, gpu_vendor, hdr_enabled, display);
            &&& s.conf == conf
            &&& s.nvidia_conf == nvidia_conf
            &&& s.gpu_vendor == gpu_vendor
            &&& s.hdr_enabled == hdr_enabled
            &&& s.display == display
            &&& s.status is None
            &&& !s.cal_open
            &&& consistent(s)
            &&& s.is_nvidia <==> gpu_vendor == "nvidia"@
        }),
{
}

/// A message with an HDR setting changes that setting and nothing else.
pub proof fn law_hdr_settings(s: CosmicHdrView, v: u32, alive: bool)
    ensures
        updated(s, Message::SdrNits(v), alive) == (CosmicHdrView {
            conf: HdrConfView { sdr_nits: v, ..s.conf },
            ..s
        }),
        updated(s, Message::PeakNits(v), alive) == (CosmicHdrView {
            conf: HdrConfView { peak_nits: v, ..s.conf },
            ..s
        }),
        updated(s, Message::Gamut(v), alive) == (CosmicHdrView {
            conf: HdrConfView { gamut: v, ..s.conf },
            ..s
        }),
        updated(s, Message::Saturation(v), alive) == (CosmicHdrView {
            conf: HdrConfView { saturation: v, ..s.conf },
            ..s
        }),
        updated(s, Message::MidtoneGamma(v), alive) == (CosmicHdrView {
            conf: HdrConfView { midtone_gamma: v, ..s.conf },
            ..s
        }),
        updated(s, Message::OledDimTimeout(v), alive) == (CosmicHdrView {
            conf: HdrConfView { oled_dim_min: v, ..s.conf },
            ..s
        }),
{
}

/// A choice from a menu changes its setting to the choice and nothing else;
/// the last choice stands for all positions behind it.
pub proof fn law_menu_settings(s: CosmicHdrView, i: usize, alive: bool)
    ensures
        ({
            let now = updated(s, Message::GamutMode(i), alive);
            &&& now == (CosmicHdrView {
                conf: HdrConfView { gamut_mode: now.conf.gamut_mode, ..s.conf },
                ..s
            })
            &&& i == 0 ==> now.conf.gamut_mode == "bt2020"@
            &&& i == 1 ==> now.conf.gamut_mode == "dci-p3"@
            &&& i >= 2 ==> now.conf.gamut_mode == "srgb"@
        }),
        ({
            let now = updated(s, Message::BitDepth(i), alive);
            &&& now == (CosmicHdrView {
                conf: HdrConfView { max_bpc: now.conf.max_bpc, ..s.conf },
                ..s
            })
            &&& i <= 2 ==> now.conf.max_bpc == 8 + 2 * i
            &&& i > 2 ==> now.conf.max_bpc == 12
        }),
        ({
            let now = updated(s, Message::NvUpscale(i), alive);
            &&& now == (CosmicHdrView {
                nvidia_conf: NvidiaConfView { upscale: now.nvidia_conf.upscale, ..s.nvidia_conf },
                ..s
            })
            &&& i == 0 ==> now.nvidia_conf.upscale == "none"@
            &&& i == 1 ==> now.nvidia_conf.upscale == "fsr"@
            &&& i == 2 ==> now.nvidia_conf.upscale == "nis"@
            &&& i == 3 ==> now.nvidia_conf.upscale == "dlss"@
            &&& i >= 4 ==> now.nvidia_conf.upscale == "integer"@
        }),
{
}

/// A message with a gaming setting changes that setting and nothing else.
pub proof fn law_gaming_settings(
    s: CosmicHdrView,
    on: bool,
    level: i32,
    w: u32,
    h: u32,
    alive: bool,
)
    ensures
        updated(s, Message::NvSmoothMotion(on), alive) == (CosmicHdrView {
            nvidia_conf: NvidiaConfView { smooth_motion: on, ..s.nvidia_conf },
            ..s
        }),
        updated(s, Message::NvReflex(on), alive) == (CosmicHdrView {
            nvidia_conf: NvidiaConfView { reflex: on, ..s.nvidia_conf },
            ..s
        }),
        updated(s, Message::NvDldsr(on), alive) == (CosmicHdrView {
            nvidia_conf: NvidiaConfView { dldsr: on, ..s.nvidia_conf },
            ..s
        }),
        updated(s, Message::NvVibrance(level), alive) == (CosmicHdrView {
            nvidia_conf: NvidiaConfView { vibrance: level, ..s.nvidia_conf },
            ..s
        }),
        updated(s, Message::NvGsResolution(w, h), alive) == (CosmicHdrView {
            nvidia_conf: NvidiaConfView { gs_width: w, gs_height: h, ..s.nvidia_conf },
            ..s
        }),
        updated(s, Message::NvGsFps(w), alive) == (CosmicHdrView {
            nvidia_conf: NvidiaConfView { gs_fps: w, ..s.nvidia_conf },
            ..s
        }),
{
}

/// The longevity preset sets its brightness, leaving it sets the usual one, and
/// nothing else changes.
pub proof fn law_preset(s: CosmicHdrView, on: bool, alive: bool)
    ensures
        updated(s, Message::OledPreset(on), alive) == (CosmicHdrView {
            conf: HdrConfView {
                oled_preset: on,
                sdr_nits: if on {
                    150
                } else {
                    203
                },
                peak_nits: if on {
                    600
                } else {
                    800
                },
                ..s.conf
            },
            ..s
        }),
{
}

/// A setting is only taken over: nothing is run until it is to be applied.
pub proof fn law_settings_rest(
    s: CosmicHdrView,
    on: bool,
    i: usize,
    v: u32,
    h: u32,
    level: i32,
    done: Result<(), String>,
)
    ensures
        action_for(s, Message::SdrNits(v)) is Rest,
        action_for(s, Message::PeakNits(v)) is Rest,
        action_for(s, Message::Gamut(v)) is Rest,
        action_for(s, Message::GamutMode(i)) is Rest,
        action_for(s, Message::Saturation(v)) is Rest,
        action_for(s, Message::MidtoneGamma(v)) is Rest,
        action_for(s, Message::BitDepth(i)) is Rest,
        action_for(s, Message::Applied(done)) is Rest,
        action_for(s, Message::OledPreset(on)) is Rest,
        action_for(s, Message::OledDimTimeout(v)) is Rest,
        action_for(s, Message::NvSmoothMotion(on)) is Rest,
        action_for(s, Message::NvReflex(on)) is Rest,
        action_for(s, Message::NvVibrance(level)) is Rest,
        action_for(s, Message::NvUpscale(i)) is Rest,
        action_for(s, Message::NvDldsr(on)) is Rest,
        action_for(s, Message::NvGsResolution(v, h)) is Rest,
        action_for(s, Message::NvGsFps(v)) is Rest,
        action_for(s, Message::NvApplied(done)) is Rest,
{
}

/// The toggle, applying, resetting and saving hand out the settings as they
/// stand, and change nothing but the switch and the status line.
pub proof fn law_work(s: CosmicHdrView, alive: bool)
    ensures
        action_for(s, Message::HdrToggle(true)) == ActionView::ApplyConf(s.conf),
        action_for(s, Message::HdrToggle(false)) == ActionView::ResetHdr,
        action_for(s, Message::Apply) == ActionView::ApplyConf(s.conf),
        action_for(s, Message::Reset) == ActionView::ResetHdr,
        action_for(s, Message::NvApply) == ActionView::SaveGame(s.nvidia_conf),
        updated(s, Message::HdrToggle(true), alive) == (CosmicHdrView { hdr_enabled: true, ..s }),
        updated(s, Message::HdrToggle(false), alive) == (CosmicHdrView { hdr_enabled: false, ..s }),
        updated(s, Message::Apply, true) == (CosmicHdrView {
            status: Some("Signalling daemon…"@),
            ..s
        }),
        updated(s, Message::Apply, false) == (CosmicHdrView { status: Some("Applying…"@), ..s }),
        updated(s, Message::Reset, alive) == (CosmicHdrView {
            hdr_enabled: false,
            status: Some("Resetting…"@),
            ..s
        }),
        updated(s, Message::NvApply, alive) == (CosmicHdrView {
            status: Some("Saving NVIDIA settings…"@),
            ..s
        }),
{
}

/// The end of the work shows in the status line alone, an error with its text.
pub proof fn law_work_ends(s: CosmicHdrView, e: String, alive: bool)
    ensures
        updated(s, Message::Applied(Ok(())), true) == (CosmicHdrView {
            status: Some("Conf saved — daemon re-applying ✓"@),
            ..s
        }),
        updated(s, Message::Applied(Ok(())), false) == (CosmicHdrView {
            status: Some("Applied ✓"@),
            ..s
        }),
        updated(s, Message::Applied(Err(e)), alive) == (CosmicHdrView {
            status: Some("Error: "@ + e@),
            ..s
        }),
        updated(s, Message::NvApplied(Ok(())), alive) == (CosmicHdrView {
            status: Some("NVIDIA settings saved ✓"@),
            ..s
        }),
        updated(s, Message::NvApplied(Err(e)), alive) == (CosmicHdrView {
            status: Some("NVIDIA error: "@ + e@),
            ..s
        }),
{
}

/// Opening or closing a calibration window closes the old one. A new window is
/// open once it was started; a failure to start it is told and opens none.
pub proof fn law_calibration_windows(
    s: CosmicHdrView,
    p: CalibPattern,
    e: String,
    alive: bool,
)
    ensures
        updated(s, Message::ShowCalPat(p), alive) == (CosmicHdrView { cal_open: false, ..s }),
        updated(s, Message::CalibrateHdr, alive) == (CosmicHdrView { cal_open: false, ..s }),
        updated(s, Message::CloseCalPat, alive) == (CosmicHdrView { cal_open: false, ..s }),
        action_for(s, Message::CloseCalPat) == ActionView::CloseCalibration,
        action_for(s, Message::ShowCalPat(p)) == ActionView::OpenCalibration(
            seq!["/usr/local/lib/kms-hdr/hdr-cal.py"@, p.arg_text()],
        ),
        action_for(s, Message::CalibrateHdr) == ActionView::OpenCalibration(
            calibration_args(s.conf),
        ),
        calibration_opened(s, Ok(())) == (CosmicHdrView { cal_open: true, ..s }),
        calibration_opened(s, Err(e)) == (CosmicHdrView {
            status: Some("hdr-cal: "@ + e@),
            ..s
        }),
{
}

/// The contents of a state and of an action are their fields, each in its
/// place.
pub proof fn law_panel_contents(
    s: CosmicHdr,
    c: HdrConf,
    n: NvidiaConf,
    args: Vec<String>,
)
    ensures
        s@.conf == s.conf@,
        s@.nvidia_conf == s.nvidia_conf@,
        s@.is_nvidia == s.is_nvidia,
        s@.gpu_vendor == s.gpu_vendor@,
        s@.hdr_enabled == s.hdr_enabled,
        s.display is Some ==> s@.display == Some(s.display->0@),
        s.display is None ==> s@.display is None,
        s.status is Some ==> s@.status == Some(s.status->0@),
        s.status is None ==> s@.status is None,
        s@.cal_open == s.cal_open,
        Action::Rest@ is Rest,
        Action::ApplyConf(c)@ == ActionView::ApplyConf(c@),
        Action::ResetHdr@ is ResetHdr,
        Action::SaveGame(n)@ == ActionView::SaveGame(n@),
        Action::OpenCalibration(args)@ == ActionView::OpenCalibration(strings(args@)),
        Action::CloseCalibration@ is CloseCalibration,
{
}

} // verus!
