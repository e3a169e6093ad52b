//! What the page says of the state: which text, value and choice stands where,
//! and where a setting ends up that is changed on the page.

use vstd::prelude::*;

use crate::conf::{gives, hdr_args, law_each_nvidia_line, law_options_give_settings,
    nvidia_assignments, nvidia_line, NvidiaConfView};
use crate::controls::{knob_message, menu_len, menu_message, resolution, switch_message, ButtonStyle,
    ControlView, Knob, Menu, ReadoutsView, SectionView, Switch};
use crate::edid::DisplayInfoView;
use crate::number::decimal;
use crate::page::{badge, caption, depth_options, display_section, gamut_options, knob_control,
    menu_control, page_of, resolution_options, shows_oled, switch_control, upscale_options};
use crate::panel::{action_for, bit_depth, updated, upscale_name, ActionView, CosmicHdrView,
    Message};
use crate::text::{ascii_lowercase, trimmed};

verus! {

/// A section of the page, counted from the top.
pub open spec fn section_of(s: CosmicHdrView, readouts: ReadoutsView, k: int) -> SectionView {
    page_of(s, false, readouts).sections[k]
}

/// The captions of the capabilities as they read with and without a check.
proof fn lemma_captions()
    ensures
        caption("HDR10"@, true) == "HDR10 ✓"@,
        caption("HDR10"@, false) == "HDR10 —"@,
        caption("HLG"@, true) == "HLG ✓"@,
        caption("HLG"@, false) == "HLG —"@,
        caption("HDR10+"@, true) == "HDR10+ ✓"@,
        caption("HDR10+"@, false) == "HDR10+ —"@,
        caption("Dolby Vision"@, true) == "Dolby Vision ✓"@,
        caption("Dolby Vision"@, false) == "Dolby Vision —"@,
        caption("BT.2020"@, true) == "BT.2020 ✓"@,
        caption("BT.2020"@, false) == "BT.2020 —"@,
        caption("DCI-P3"@, true) == "DCI-P3 ✓"@,
        caption("DCI-P3"@, false) == "DCI-P3 —"@,
        caption("DSC"@, true) == "DSC ✓"@,
        caption("DSC"@, false) == "DSC —"@,
        caption("HDMI-CEC"@, true) == "HDMI-CEC ✓"@,
        caption("HDMI-CEC"@, false) == "HDMI-CEC —"@,
{
    reveal_strlit(" ✓");
    reveal_strlit(" —");
    reveal_strlit("HDR10");
    reveal_strlit("HDR10 ✓");
    reveal_strlit("HDR10 —");
    reveal_strlit("HLG");
    reveal_strlit("HLG ✓");
    reveal_strlit("HLG —");
    reveal_strlit("HDR10+");
    reveal_strlit("HDR10+ ✓");
    reveal_strlit("HDR10+ —");
    reveal_strlit("Dolby Vision");
    reveal_strlit("Dolby Vision ✓");
    reveal_strlit("Dolby Vision —");
    reveal_strlit("BT.2020");
    reveal_strlit("BT.2020 ✓");
    reveal_strlit("BT.2020 —");
    reveal_strlit("DCI-P3");
    reveal_strlit("DCI-P3 ✓");
    reveal_strlit("DCI-P3 —");
    reveal_strlit("DSC");
    reveal_strlit("DSC ✓");
    reveal_strlit("DSC —");
    reveal_strlit("HDMI-CEC");
    reveal_strlit("HDMI-CEC ✓");
    reveal_strlit("HDMI-CEC —");
    assert(caption("HDR10"@, true) == "HDR10 ✓"@);
    assert(caption("HDR10"@, false) == "HDR10 —"@);
    assert(caption("HLG"@, true) == "HLG ✓"@);
    assert(caption("HLG"@, false) == "HLG —"@);
    assert(caption("HDR10+"@, true) == "HDR10+ ✓"@);
    assert(caption("HDR10+"@, false) == "HDR10+ —"@);
    assert(caption("Dolby Vision"@, true) == "Dolby Vision ✓"@);
    assert(caption("Dolby Vision"@, false) == "Dolby Vision —"@);
    assert(caption("BT.2020"@, true) == "BT.2020 ✓"@);
    assert(caption("BT.2020"@, false) == "BT.2020 —"@);
    assert(caption("DCI-P3"@, true) == "DCI-P3 ✓"@);
    assert(caption("DCI-P3"@, false) == "DCI-P3 —"@);
    assert(caption("DSC"@, true) == "DSC ✓"@);
    assert(caption("DSC"@, false) == "DSC —"@);
    assert(caption("HDMI-CEC"@, true) == "HDMI-CEC ✓"@);
    assert(caption("HDMI-CEC"@, false) == "HDMI-CEC —"@);
}

/// The two lines of captions in the section of a display.
pub open spec fn captions(d: DisplayInfoView, pq: Seq<char>) -> (Seq<Seq<char>>, Seq<Seq<char>>) {
    let control = display_section(d, pq).rows[0].control;
    (control->hdr, control->colour)
}

/// Each capability of a display is shown by a caption of its name, with a check
/// exactly where the display has it.
#[verifier::rlimit(50)]
pub proof fn law_capabilities(s: CosmicHdrView, d: DisplayInfoView, readouts: ReadoutsView)
    requires
        s.display == Some(d),
    ensures
        page_of(s, false, readouts).display == Some(display_section(d, readouts.display_pq)),
        display_section(d, readouts.display_pq).rows[0].control is Capabilities,
        ({
            let (hdr, colour) = captions(d, readouts.display_pq);
            &&& hdr.len() == 4
            &&& colour.len() == 4
            &&& d.hdr10 ==> hdr[0] == "HDR10 ✓"@
            &&& !d.hdr10 ==> hdr[0] == "HDR10 —"@
            &&& d.hlg ==> hdr[1] == "HLG ✓"@
            &&& !d.hlg ==> hdr[1] == "HLG —"@
            &&& d.hdr10plus ==> hdr[2] == "HDR10+ ✓"@
            &&& !d.hdr10plus ==> hdr[2] == "HDR10+ —"@
            &&& d.dolby ==> hdr[3] == "Dolby Vision ✓"@
            &&& !d.dolby ==> hdr[3] == "Dolby Vision —"@
            &&& d.bt2020 ==> colour[0] == "BT.2020 ✓"@
            &&& !d.bt2020 ==> colour[0] == "BT.2020 —"@
            &&& d.dci_p3 ==> colour[1] == "DCI-P3 ✓"@
            &&& !d.dci_p3 ==> colour[1] == "DCI-P3 —"@
            &&& d.dsc ==> colour[2] == "DSC ✓"@
            &&& !d.dsc ==> colour[2] == "DSC —"@
            &&& d.cec ==> colour[3] == "HDMI-CEC ✓"@
            &&& !d.cec ==> colour[3] == "HDMI-CEC —"@
        }),
{
    lemma_captions();
}

/// A caption tells whether the display has the capability.
proof fn lemma_caption_tells(label: Seq<char>, a: bool, b: bool)
    ensures
        caption(label, a) == caption(label, b) <==> a == b,
{
    reveal_strlit(" ✓");
    reveal_strlit(" —");
    let n = label.len() as int;
    assert(caption(label, true)[n + 1] == '✓');
    assert(caption(label, false)[n + 1] == '—');
}

/// The captions of two displays differ exactly where the displays do: a change
/// of one capability changes its own caption and no other.
pub proof fn law_captions_tell(d: DisplayInfoView, e: DisplayInfoView, p: Seq<char>, q: Seq<char>)
    ensures
        captions(d, p).0[0] == captions(e, q).0[0] <==> d.hdr10 == e.hdr10,
        captions(d, p).0[1] == captions(e, q).0[1] <==> d.hlg == e.hlg,
        captions(d, p).0[2] == captions(e, q).0[2] <==> d.hdr10plus == e.hdr10plus,
        captions(d, p).0[3] == captions(e, q).0[3] <==> d.dolby == e.dolby,
        captions(d, p).1[0] == captions(e, q).1[0] <==> d.bt2020 == e.bt2020,
        captions(d, p).1[1] == captions(e, q).1[1] <==> d.dci_p3 == e.dci_p3,
        captions(d, p).1[2] == captions(e, q).1[2] <==> d.dsc == e.dsc,
        captions(d, p).1[3] == captions(e, q).1[3] <==> d.cec == e.cec,
{
    lemma_caption_tells("HDR10"@, d.hdr10, e.hdr10);
    lemma_caption_tells("HLG"@, d.hlg, e.hlg);
    lemma_caption_tells("HDR10+"@, d.hdr10plus, e.hdr10plus);
    lemma_caption_tells("Dolby Vision"@, d.dolby, e.dolby);
    lemma_caption_tells("BT.2020"@, d.bt2020, e.bt2020);
    lemma_caption_tells("DCI-P3"@, d.dci_p3, e.dci_p3);
    lemma_caption_tells("DSC"@, d.dsc, e.dsc);
    lemma_caption_tells("HDMI-CEC"@, d.cec, e.cec);
}

/// A display is shown by its name, its interface and its peak: HDMI goes before
/// DisplayPort, and a peak of zero is none. Without a display nothing is shown
/// of one.
#[verifier::rlimit(50)]
pub proof fn law_display_shown(s: CosmicHdrView, alive: bool, readouts: ReadoutsView)
    ensures
        match s.display {
            None => page_of(s, alive, readouts).display is None,
            Some(d) => {
                let shown = page_of(s, alive, readouts).display.unwrap();
                let port = if d.hdmi_ver is Some {
                    d.hdmi_ver->0
                } else if d.dp_ver is Some {
                    d.dp_ver->0
                } else {
                    "?"@
                };
                &&& page_of(s, alive, readouts).display is Some
                &&& shown.heading == "Display"@
                &&& shown.rows.len() == 1
                &&& shown.rows[0].title == d.name
                &&& d.max_lum_nits == 0 ==> shown.rows[0].description == port
                    + " · peak luminance not specified in EDID"@
                &&& d.max_lum_nits > 0 ==> shown.rows[0].description == port + " · EDID peak "@
                    + decimal(d.max_lum_nits as nat) + " nits  ("@ + readouts.display_pq
                    + "% PQ)"@
            },
        },
{
}

/// The line of the hardware names the vendor, and adds the daemon while it is
/// alive; the daemon shows nowhere else on the page.
#[verifier::rlimit(50)]
pub proof fn law_badge(s: CosmicHdrView, readouts: ReadoutsView)
    ensures
        ({
            let line = page_of(s, false, readouts).badge;
            &&& page_of(s, true, readouts).badge == line + "  ·  daemon ✓ (live reload active)"@
            &&& s.gpu_vendor == "amd"@ ==> line
                == "AMD  ·  Full pipeline: DEGAMMA + CTM + GAMMA + saturation + midtone"@
            &&& s.gpu_vendor == "intel"@ ==> line
                == "Intel  ·  Full pipeline: DEGAMMA + CTM + GAMMA + saturation + midtone"@
            &&& s.gpu_vendor == "nvidia"@ ==> line
                == "NVIDIA  ·  Gamma-only on desktop (PQ + midtone); full HDR + gaming via hdr-game"@
            &&& s.gpu_vendor != "amd"@ && s.gpu_vendor != "intel"@ && s.gpu_vendor != "nvidia"@
                ==> line == "GPU vendor unknown"@
            &&& page_of(s, true, readouts).sections == page_of(s, false, readouts).sections
            &&& page_of(s, true, readouts).display == page_of(s, false, readouts).display
            &&& page_of(s, true, readouts).status == page_of(s, false, readouts).status
        }),
{
    reveal_strlit("amd");
    reveal_strlit("intel");
    reveal_strlit("nvidia");
    assert("amd"@.len() == 3 && "intel"@.len() == 5 && "nvidia"@.len() == 6);
    let line = page_of(s, false, readouts).badge;
    assert(line + Seq::<char>::empty() == line);
    assert(badge(s.gpu_vendor, false) == line);
    if s.gpu_vendor == "amd"@ {
        let text = "AMD  ·  Full pipeline: DEGAMMA + CTM + GAMMA + saturation + midtone"@;
        assert(text + Seq::<char>::empty() == text);
    } else if s.gpu_vendor == "intel"@ {
        let text = "Intel  ·  Full pipeline: DEGAMMA + CTM + GAMMA + saturation + midtone"@;
        assert(text + Seq::<char>::empty() == text);
    } else if s.gpu_vendor == "nvidia"@ {
        let text =
            "NVIDIA  ·  Gamma-only on desktop (PQ + midtone); full HDR + gaming via hdr-game"@;
        assert(text + Seq::<char>::empty() == text);
    } else {
        let text = "GPU vendor unknown"@;
        assert(text + Seq::<char>::empty() == text);
    }
}

/// Every slider stands at its own setting, says so beside itself, and moves
/// within its range.
#[verifier::rlimit(50)]
pub proof fn law_sliders(s: CosmicHdrView, knob: Knob, readouts: ReadoutsView)
    ensures
        match knob_control(s, knob, false, readouts) {
            None => knob is NvGsFps && !s.is_nvidia || knob is OledDimTimeout && !shows_oled(s),
            Some(control) => match knob {
                Knob::SdrNits => control == (ControlView::Slider {
                    knob,
                    min: 80,
                    max: 400,
                    step: 1,
                    value: s.conf.sdr_nits,
                    text: decimal(s.conf.sdr_nits as nat) + " nits  ("@ + readouts.sdr_pq
                        + "% PQ)"@,
                    text_width: 140,
                }),
                Knob::PeakNits => control == (ControlView::Slider {
                    knob,
                    min: 400,
                    max: 1200,
                    step: 10,
                    value: s.conf.peak_nits,
                    text: decimal(s.conf.peak_nits as nat) + " nits  ("@ + readouts.peak_pq
                        + "% PQ)"@,
                    text_width: 140,
                }),
                Knob::Gamut => control == (ControlView::Slider {
                    knob,
                    min: 0,
                    max: 100,
                    step: 1,
                    value: s.conf.gamut,
                    text: decimal(s.conf.gamut as nat) + "%"@,
                    text_width: 48,
                }),
                Knob::Saturation => control == (ControlView::Slider {
                    knob,
                    min: 50,
                    max: 200,
                    step: 5,
                    value: s.conf.saturation,
                    text: decimal(s.conf.saturation as nat) + "%"@,
                    text_width: 52,
                }),
                Knob::MidtoneGamma => control == (ControlView::Slider {
                    knob,
                    min: 30,
                    max: 250,
                    step: 5,
                    value: s.conf.midtone_gamma,
                    text: decimal(s.conf.midtone_gamma as nat) + "%"@,
                    text_width: 52,
                }),
                Knob::NvGsFps => control == (ControlView::Slider {
                    knob,
                    min: 30,
                    max: 360,
                    step: 30,
                    value: s.nvidia_conf.gs_fps,
                    text: decimal(s.nvidia_conf.gs_fps as nat) + " fps"@,
                    text_width: 68,
                }),
                Knob::OledDimTimeout => control == (ControlView::Slider {
                    knob,
                    min: 0,
                    max: 60,
                    step: 5,
                    value: s.conf.oled_dim_min,
                    text: if s.conf.oled_dim_min == 0 {
                        "Off"@
                    } else {
                        decimal(s.conf.oled_dim_min as nat) + " min"@
                    },
                    text_width: 52,
                }),
            },
        },
{
}

/// Every switch stands as its own setting does.
#[verifier::rlimit(50)]
pub proof fn law_switches(s: CosmicHdrView, switch: Switch, readouts: ReadoutsView)
    ensures
        match switch_control(s, switch, false, readouts) {
            None => switch is OledPreset && !shows_oled(s) || switch !is OledPreset && switch
                !is HdrToggle && !s.is_nvidia,
            Some(control) => control == (ControlView::Toggle {
                switch,
                on: match switch {
                    Switch::HdrToggle => s.hdr_enabled,
                    Switch::NvSmoothMotion => s.nvidia_conf.smooth_motion,
                    Switch::NvReflex => s.nvidia_conf.reflex,
                    Switch::NvDldsr => s.nvidia_conf.dldsr,
                    Switch::OledPreset => s.conf.oled_preset,
                },
            }),
        },
{
}

/// The slider of the vibrance stands at the vibrance.
pub proof fn law_vibrance_slider(s: CosmicHdrView, readouts: ReadoutsView)
    requires
        s.is_nvidia,
    ensures
        section_of(s, readouts, 6).rows[3].control == (ControlView::Vibrance {
            low: (-1024) as i32,
            high: 1023,
            stride: 32,
            level: s.nvidia_conf.vibrance,
            text: decimal(readouts.vibrance_pct as nat) + "%"@,
            text_width: 48,
        }),
{
}

/// Every menu shows its own choices and selects the one its setting is. A
/// setting that no choice stands for is shown at the usual choice; an unknown
/// resolution at none.
#[verifier::rlimit(50)]
pub proof fn law_menus(s: CosmicHdrView, menu: Menu, readouts: ReadoutsView)
    ensures
        match menu_control(s, menu, false, readouts) {
            Some(ControlView::Dropdown { menu: m, options, selected }) => {
                &&& m == menu
                &&& options.len() == menu_len(menu)
                &&& menu is GamutMode ==> options == gamut_options()
                &&& menu is BitDepth ==> options == depth_options()
                &&& menu is NvUpscale ==> options == upscale_options()
                &&& menu is NvGsResolution ==> options == resolution_options()
                &&& menu is GamutMode && s.conf.gamut_mode == "dci-p3"@ ==> selected == Some(1usize)
                &&& menu is GamutMode && s.conf.gamut_mode == "srgb"@ ==> selected == Some(2usize)
                &&& menu is BitDepth && s.conf.max_bpc == 8 ==> selected == Some(0usize)
                &&& menu is BitDepth && s.conf.max_bpc == 12 ==> selected == Some(2usize)
                &&& menu is NvUpscale && s.nvidia_conf.upscale == "fsr"@ ==> selected == Some(1usize)
                &&& menu is NvUpscale && s.nvidia_conf.upscale == "nis"@ ==> selected == Some(2usize)
                &&& menu is NvUpscale && s.nvidia_conf.upscale == "dlss"@ ==> selected == Some(
                    3usize,
                )
                &&& menu is NvUpscale && s.nvidia_conf.upscale == "integer"@ ==> selected == Some(
                    4usize,
                )
                &&& menu is GamutMode && s.conf.gamut_mode != "dci-p3"@ && s.conf.gamut_mode
                    != "srgb"@ ==> selected == Some(0usize)
                &&& menu is BitDepth && s.conf.max_bpc != 8 && s.conf.max_bpc != 12 ==> selected
                    == Some(1usize)
                &&& menu is NvUpscale && s.nvidia_conf.upscale != "fsr"@ && s.nvidia_conf.upscale
                    != "nis"@ && s.nvidia_conf.upscale != "dlss"@ && s.nvidia_conf.upscale
                    != "integer"@ ==> selected == Some(0usize)
                &&& menu is NvGsResolution && selected is Some ==> selected->0 < 5 && resolution(
                    selected->0,
                ) == (s.nvidia_conf.gs_width, s.nvidia_conf.gs_height)
                &&& menu is NvGsResolution && selected is None ==> forall|i: usize|
                    i < 5 ==> #[trigger] resolution(i) != (
                        s.nvidia_conf.gs_width,
                        s.nvidia_conf.gs_height,
                    )
            },
            Some(_) => false,
            None => (menu is NvUpscale || menu is NvGsResolution) && !s.is_nvidia,
        },
{
    lemma_choice_names();
}

/// The names of the choices are told apart by their letters.
proof fn lemma_choice_names()
    ensures
        "dci-p3"@ != "srgb"@,
        "fsr"@ != "nis"@,
        "fsr"@ != "dlss"@,
        "fsr"@ != "integer"@,
        "nis"@ != "dlss"@,
        "nis"@ != "integer"@,
        "dlss"@ != "integer"@,
{
    reveal_strlit("dci-p3");
    reveal_strlit("srgb");
    reveal_strlit("fsr");
    reveal_strlit("nis");
    reveal_strlit("dlss");
    reveal_strlit("integer");
    assert("dci-p3"@.len() == 6 && "srgb"@.len() == 4);
    assert("fsr"@.len() == 3 && "fsr"@[0] == 'f');
    assert("nis"@.len() == 3 && "nis"@[0] == 'n');
    assert("dlss"@.len() == 4);
    assert("integer"@.len() == 7);
}

/// `text` begins with `front`.
pub open spec fn begins(text: Seq<char>, front: Seq<char>) -> bool {
    text.len() >= front.len() && text.take(front.len() as int) == front
}

/// The choices are labelled by what they stand for: bit depths and resolutions
/// by their numbers, upscalers by their names.
pub proof fn law_choice_labels()
    ensures
        begins(depth_options()[0], decimal(bit_depth(0) as nat) + " bpc"@),
        begins(depth_options()[1], decimal(bit_depth(1) as nat) + " bpc"@),
        begins(depth_options()[2], decimal(bit_depth(2) as nat) + " bpc"@),
        begins(ascii_lowercase(upscale_options()[0]), upscale_name(0)),
        begins(ascii_lowercase(upscale_options()[1]), upscale_name(1)),
        begins(ascii_lowercase(upscale_options()[2]), upscale_name(2)),
        begins(ascii_lowercase(upscale_options()[3]), upscale_name(3)),
        begins(ascii_lowercase(upscale_options()[4]), upscale_name(4)),
        depth_options() == seq![
            "8 bpc  (legacy displays)"@,
            "10 bpc  (recommended — HDR10)"@,
            "12 bpc  (reference monitors / HDR+)"@,
        ],
        upscale_options() == seq![
            "None  (native res)"@,
            "FSR  (AMD FidelityFX Super Resolution)"@,
            "NIS  (NVIDIA Image Scaling)"@,
            "DLSS  (Deep Learning Super Sampling)"@,
            "Integer  (pixel-perfect integer scale)"@,
        ],
        gamut_options() == seq![
            "BT.2020  (full wide colour — UHDTV / DCI cinemas)"@,
            "DCI-P3 D65  (Apple / cinema mid-gamut)"@,
            "sRGB  (no gamut expansion)"@,
        ],
        resolution_options() == seq![
            "1920 × 1080  (1080p)"@,
            "2560 × 1440  (1440p)"@,
            "3840 × 2160  (4K UHD)"@,
            "5120 × 2880  (5K)"@,
            "7680 × 4320  (8K)"@,
        ],
{
    reveal_with_fuel(decimal, 3);
    reveal_strlit(" bpc");
    reveal_strlit("8 bpc  (legacy displays)");
    reveal_strlit("10 bpc  (recommended — HDR10)");
    reveal_strlit("12 bpc  (reference monitors / HDR+)");
    reveal_strlit("None  (native res)");
    reveal_strlit("FSR  (AMD FidelityFX Super Resolution)");
    reveal_strlit("NIS  (NVIDIA Image Scaling)");
    reveal_strlit("DLSS  (Deep Learning Super Sampling)");
    reveal_strlit("Integer  (pixel-perfect integer scale)");
    reveal_strlit("none");
    reveal_strlit("fsr");
    reveal_strlit("nis");
    reveal_strlit("dlss");
    reveal_strlit("integer");
    let depth = decimal(8) + " bpc"@;
    assert(depth_options()[0].take(depth.len() as int) == depth);
    let depth = decimal(10) + " bpc"@;
    assert(decimal(10) == seq!['1', '0']);
    assert(depth_options()[1].take(depth.len() as int) == depth);
    let depth = decimal(12) + " bpc"@;
    assert(decimal(12) == seq!['1', '2']);
    assert(depth_options()[2].take(depth.len() as int) == depth);
    assert(ascii_lowercase(upscale_options()[0]).take(4) == "none"@);
    assert(ascii_lowercase(upscale_options()[1]).take(3) == "fsr"@);
    assert(ascii_lowercase(upscale_options()[2]).take(3) == "nis"@);
    assert(ascii_lowercase(upscale_options()[3]).take(4) == "dlss"@);
    assert(ascii_lowercase(upscale_options()[4]).take(7) == "integer"@);
}

/// The midtone gamma is described by what it does: more than 110 darkens, less
/// than 90 lifts, and in between it is neutral.
pub proof fn law_midtone_described(s: CosmicHdrView, readouts: ReadoutsView)
    ensures
        ({
            let gamma = s.conf.midtone_gamma;
            let line = section_of(s, readouts, 4).rows[0].description;
            &&& gamma > 110 ==> line == decimal(gamma as nat)
                + "%  — HDR punch (darkened midtones, higher contrast)"@
            &&& gamma < 90 ==> line == decimal(gamma as nat)
                + "%  — lifted midtones (lower contrast, may look washed)"@
            &&& 90 <= gamma <= 110 ==> line == decimal(gamma as nat) + "%  — neutral"@
        }),
{
}

/// The sections that every page has carry their names, those without an effect
/// on NVIDIA hardware say so, and every row carries the name of its setting.
#[verifier::rlimit(50)]
pub proof fn law_common_rows(s: CosmicHdrView, readouts: ReadoutsView)
    ensures
        ({
            let at = |k: int| section_of(s, readouts, k);
            &&& at(0).heading == "HDR Output"@
            &&& at(0).rows.len() == 1
            &&& at(0).rows[0].title == "Enable HDR10"@
            &&& at(0).rows[0].description == "BT.2020 + PQ (ST2084) · kms-hdr.service"@
            &&& at(1).heading == "Brightness"@
            &&& at(1).rows.len() == 2
            &&& at(1).rows[0].title == "SDR White"@
            &&& at(1).rows[0].description == "Brightness of desktop/SDR content in HDR mode"@
            &&& at(1).rows[1].title == "Display Peak"@
            &&& at(1).rows[1].description == "Your display's maximum HDR luminance"@
            &&& s.is_nvidia ==> at(2).heading == "Colour  (AMD/Intel only)"@
            &&& !s.is_nvidia ==> at(2).heading == "Colour"@
            &&& at(2).rows.len() == 2
            &&& at(2).rows[0].title == "Target Gamut"@
            &&& at(2).rows[0].description == "Colour space the CTM matrix expands sRGB into"@
            &&& at(2).rows[1].title == "Expansion"@
            &&& at(2).rows[1].description == "0% = sRGB identical · 100% = full target gamut"@
            &&& s.is_nvidia ==> at(3).heading == "Color Intensity  (AMD/Intel only)"@
            &&& !s.is_nvidia ==> at(3).heading == "Color Intensity"@
            &&& at(3).rows.len() == 1
            &&& at(3).rows[0].title == "Saturation"@
            &&& at(3).rows[0].description
                == "Color vividness via BT.709 saturation matrix · 100% = neutral · 150% = vivid"@
            &&& at(4).heading == "Tone Mapping"@
            &&& at(4).rows.len() == 1
            &&& at(4).rows[0].title == "Midtone Gamma"@
            &&& at(5).heading == "Output Format"@
            &&& at(5).rows.len() == 1
            &&& at(5).rows[0].title == "Bit Depth"@
            &&& at(5).rows[0].description == "Requested via max_requested_bpc on the connector"@
        }),
{
}

/// The sections of NVIDIA hardware and of OLED displays carry their names, and
/// every row the name of its setting.
#[verifier::rlimit(50)]
pub proof fn law_special_rows(s: CosmicHdrView, readouts: ReadoutsView)
    ensures
        s.is_nvidia ==> ({
            let gaming = section_of(s, readouts, 6).rows;
            let scope = section_of(s, readouts, 7).rows;
            &&& gaming.len() == 5
            &&& gaming[0].title == "RTX Smooth Motion"@
            &&& gaming[0].description
                == "Frame generation via VK_LAYER_NV_present — Vulkan + DXVK/Proton"@
            &&& gaming[1].title == "NVIDIA Reflex"@
            &&& gaming[1].description
                == "Low-latency via NvAPI (PROTON_ENABLE_NVAPI + DXVK_ENABLE_NVAPI)"@
            &&& gaming[2].title == "DLDSR"@
            &&& gaming[2].description
                == "Deep Learning Dynamic Super Resolution — renders higher, displays native"@
            &&& gaming[3].title == "Digital Vibrance"@
            &&& gaming[3].description
                == "Colour saturation via nvibrant ioctl · 0% = neutral · 100% = max"@
            &&& gaming[4].title == "Upscaling"@
            &&& gaming[4].description == "Algorithm used inside Gamescope for resolution scaling"@
            &&& scope.len() == 3
            &&& scope[0].title == "Output Resolution"@
            &&& scope[0].description
                == "Gamescope target resolution — should match your display native res"@
            &&& scope[1].title == "Target FPS"@
            &&& scope[1].description == "Gamescope framerate cap"@
            &&& scope[2].title == "Apply NVIDIA Settings"@
            &&& scope[2].description
                == "Saves to /etc/hdr-game.conf — picked up by hdr-game on next launch"@
        }),
        shows_oled(s) ==> ({
            let sections = page_of(s, false, readouts).sections;
            let care = sections[sections.len() - 2].rows;
            &&& care.len() == 3
            &&& care[0].title == "Longevity Preset"@
            &&& care[0].description
                == "SDR 150 nits · HDR peak 600 nits — reduces panel stress for daily desktop use"@
            &&& care[1].title == "Auto-Dim"@
            &&& care[1].description
                == "Dim to 50 nits after idle timeout via swayidle · requires swayidle installed"@
            &&& care[2].title == "Pixel Shift"@
            &&& care[2].description
                == "Handled by COSMIC/KDE compositor — enable in Display → Screen Saver settings"@
            &&& care[2].control == (ControlView::Note { text: "compositor setting"@ })
        }),
{
}

/// The OLED section is there exactly where the display is an OLED display.
pub proof fn law_oled_care(s: CosmicHdrView)
    ensures
        shows_oled(s) <==> s.display is Some && s.display->0.is_oled,
{
}

/// The buttons do what they say: those of the page's end, of the gaming
/// settings and of the calibration.
#[verifier::rlimit(50)]
pub proof fn law_buttons(s: CosmicHdrView, alive: bool, readouts: ReadoutsView)
    ensures
        ({
            let page = page_of(s, alive, readouts);
            let last = page.sections.last();
            &&& page.status == s.status
            &&& page.buttons.len() == 2
            &&& page.buttons[0].label == "Reset to SDR"@
            &&& page.buttons[0].style == ButtonStyle::Destructive
            &&& page.buttons[0].message == Message::Reset
            &&& page.buttons[1].label == "Apply"@
            &&& page.buttons[1].style == ButtonStyle::Suggested
            &&& page.buttons[1].message == Message::Apply
            &&& last.heading == "HDR Calibration"@
            &&& last.rows.len() == 2
            &&& last.rows[0].title == "Calibrate HDR"@
            &&& last.rows[0].description
                == "Adjust SDR content brightness interactively — like Windows HDR Calibration"@
            &&& last.rows[0].control is Buttons
            &&& last.rows[0].control->buttons.len() == 1
            &&& last.rows[0].control->buttons[0].label == "Calibrate…"@
            &&& last.rows[0].control->buttons[0].style == ButtonStyle::Suggested
            &&& last.rows[0].control->buttons[0].message == Message::CalibrateHdr
            &&& last.rows[1].title == "Test Patterns"@
            &&& last.rows[1].description
                == "Full-screen colour fields — click or press Esc to close"@
            &&& last.rows[1].control is Buttons
            &&& last.rows[1].control->buttons.len() == (if s.cal_open {
                9int
            } else {
                8
            })
            &&& forall|i: int|
                0 <= i < 8 ==> match (#[trigger] last.rows[1].control->buttons[i]).message {
                    Message::ShowCalPat(p) => last.rows[1].control->buttons[i].label
                        == p.label_text() && last.rows[1].control->buttons[i].style
                        == ButtonStyle::Standard,
                    _ => false,
                }
            &&& s.cal_open ==> last.rows[1].control->buttons[8].label == "✕ Close"@
                && last.rows[1].control->buttons[8].style == ButtonStyle::Destructive
                && last.rows[1].control->buttons[8].message == Message::CloseCalPat
        }),
        s.is_nvidia ==> ({
            let save = section_of(s, readouts, 7).rows[2].control;
            &&& save is Buttons
            &&& save->buttons.len() == 1
            &&& save->buttons[0].label == "Save"@
            &&& save->buttons[0].style == ButtonStyle::Suggested
            &&& save->buttons[0].message == Message::NvApply
        }),
{
}

/// The option that carries a setting of the HDR output to the helper.
pub open spec fn option_of(knob: Knob) -> Option<Seq<char>> {
    match knob {
        Knob::SdrNits => Some("--sdr-nits"@),
        Knob::PeakNits => Some("--peak-nits"@),
        Knob::Gamut => Some("--gamut"@),
        Knob::Saturation => Some("--saturation"@),
        Knob::MidtoneGamma => Some("--midtone-gamma"@),
        Knob::OledDimTimeout => Some("--oled-dim-min"@),
        Knob::NvGsFps => None,
    }
}

/// A value that is set with a slider of the HDR output is the value that is
/// applied: its option carries it, by the button and by the switch.
#[verifier::rlimit(50)]
pub proof fn law_value_is_applied(s: CosmicHdrView, knob: Knob, v: u32, alive: bool)
    requires
        option_of(knob) is Some,
    ensures
        ({
            let now = updated(s, knob_message(knob, v), alive);
            &&& action_for(now, Message::Apply) == ActionView::ApplyConf(now.conf)
            &&& action_for(now, switch_message(Switch::HdrToggle, true)) == ActionView::ApplyConf(
                now.conf,
            )
            &&& gives(hdr_args(now.conf), option_of(knob)->0, decimal(v as nat))
        }),
{
    law_options_give_settings(updated(s, knob_message(knob, v), alive).conf);
}

/// A bit depth and a gamut that are chosen are those that are applied.
#[verifier::rlimit(50)]
pub proof fn law_choice_is_applied(s: CosmicHdrView, i: usize, alive: bool)
    ensures
        ({
            let now = updated(s, menu_message(Menu::BitDepth, i), alive);
            &&& action_for(now, Message::Apply) == ActionView::ApplyConf(now.conf)
            &&& i < 3 ==> gives(hdr_args(now.conf), "--bpc"@, decimal((8 + 2 * i) as nat))
        }),
        ({
            let now = updated(s, menu_message(Menu::GamutMode, i), alive);
            &&& action_for(now, Message::Apply) == ActionView::ApplyConf(now.conf)
            &&& i == 0 ==> gives(hdr_args(now.conf), "--gamut-mode"@, "bt2020"@)
            &&& i == 1 ==> gives(hdr_args(now.conf), "--gamut-mode"@, "dci-p3"@)
            &&& i == 2 ==> gives(hdr_args(now.conf), "--gamut-mode"@, "srgb"@)
        }),
{
    law_options_give_settings(updated(s, menu_message(Menu::BitDepth, i), alive).conf);
    law_options_give_settings(updated(s, menu_message(Menu::GamutMode, i), alive).conf);
}

/// Gaming settings that are changed on the page are those that are saved: the
/// lines that are handed over set them in any state.
#[verifier::rlimit(50)]
pub proof fn law_gaming_is_saved(
    s: CosmicHdrView,
    base: NvidiaConfView,
    on: bool,
    fps: u32,
    level: i32,
    alive: bool,
)
    requires
        trimmed(s.nvidia_conf.upscale) == s.nvidia_conf.upscale,
    ensures
        ({
            let now = updated(s, knob_message(Knob::NvGsFps, fps), alive);
            &&& action_for(now, Message::NvApply) == ActionView::SaveGame(now.nvidia_conf)
            &&& nvidia_line(base, nvidia_assignments(now.nvidia_conf)[7]).gs_fps == fps
        }),
        ({
            let now = updated(s, switch_message(Switch::NvDldsr, on), alive);
            nvidia_line(base, nvidia_assignments(now.nvidia_conf)[4]).dldsr == on
        }),
        ({
            let now = updated(s, switch_message(Switch::NvReflex, on), alive);
            nvidia_line(base, nvidia_assignments(now.nvidia_conf)[1]).reflex == on
        }),
        ({
            let now = updated(s, switch_message(Switch::NvSmoothMotion, on), alive);
            nvidia_line(base, nvidia_assignments(now.nvidia_conf)[0]).smooth_motion == on
        }),
        ({
            let now = updated(s, Message::NvVibrance(level), alive);
            nvidia_line(base, nvidia_assignments(now.nvidia_conf)[2]).vibrance == level
        }),
{
    law_each_nvidia_line(base, updated(s, knob_message(Knob::NvGsFps, fps), alive).nvidia_conf);
    law_each_nvidia_line(base, updated(s, switch_message(Switch::NvDldsr, on), alive).nvidia_conf);
    law_each_nvidia_line(base, updated(s, switch_message(Switch::NvReflex, on), alive).nvidia_conf);
    law_each_nvidia_line(
        base,
        updated(s, switch_message(Switch::NvSmoothMotion, on), alive).nvidia_conf,
    );
    law_each_nvidia_line(base, updated(s, Message::NvVibrance(level), alive).nvidia_conf);
}

/// The sizes of the resolution menu, the widths over the heights of a sixteen
/// by nine display.
pub proof fn law_resolutions(i: usize)
    requires
        i < 5,
    ensures
        resolution(i).0 * 9 == resolution(i).1 * 16,
        i == 0 ==> resolution(i).1 == 1080,
        i == 1 ==> resolution(i).1 == 1440,
        i == 2 ==> resolution(i).1 == 2160,
        i == 3 ==> resolution(i).1 == 2880,
        i == 4 ==> resolution(i).1 == 4320,
{
}

} // verus!
