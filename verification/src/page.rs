//! What the panel shows.

use vstd::prelude::*;

use crate::calib::CalibPattern;
use crate::conf::{joined, HdrConf, HdrConfView, NvidiaConf, NvidiaConfView};
use crate::controls::{button_views, knob_message, menu_len, menu_message, resolution, row_views,
    section_views, switch_message, Button, ButtonStyle, ButtonView, Control, ControlView, Knob, Menu,
    Page, PageView, Readouts, ReadoutsView, Row, RowView, Section, SectionView, Switch};
use crate::edid::{DisplayInfo, DisplayInfoView};
use crate::number::{decimal, u32_text};
use crate::panel::{updated, CosmicHdr, CosmicHdrView, Message};
use crate::text::{same_text, strings};

verus! {

/// A capability and whether the display has it.
pub open spec fn caption(label: Seq<char>, ok: bool) -> Seq<char> {
    label + if ok {
        " ✓"@
    } else {
        " —"@
    }
}

/// The interface that a display is named with: HDMI before DisplayPort.
pub open spec fn interface(d: DisplayInfoView) -> Seq<char> {
    match (d.hdmi_ver, d.dp_ver) {
        (Some(v), _) => v,
        (None, Some(v)) => v,
        (None, None) => "?"@,
    }
}

/// The line below a display's name.
pub open spec fn display_description(d: DisplayInfoView, pq: Seq<char>) -> Seq<char> {
    if d.max_lum_nits > 0 {
        interface(d) + " · EDID peak "@ + decimal(d.max_lum_nits as nat) + " nits  ("@ + pq
            + "% PQ)"@
    } else {
        interface(d) + " · peak luminance not specified in EDID"@
    }
}

/// The section of the display.
pub open spec fn display_section(d: DisplayInfoView, pq: Seq<char>) -> SectionView {
    SectionView {
        heading: "Display"@,
        rows: seq![
            RowView {
                title: d.name,
                description: display_description(d, pq),
                control: ControlView::Capabilities {
                    hdr: seq![
                        caption("HDR10"@, d.hdr10),
                        caption("HLG"@, d.hlg),
                        caption("HDR10+"@, d.hdr10plus),
                        caption("Dolby Vision"@, d.dolby),
                    ],
                    colour: seq![
                        caption("BT.2020"@, d.bt2020),
                        caption("DCI-P3"@, d.dci_p3),
                        caption("DSC"@, d.dsc),
                        caption("HDMI-CEC"@, d.cec),
                    ],
                },
            },
        ],
    }
}

/// Writes a capability and whether the display has it.
fn caption_text(label: &str, ok: bool) -> (r: String)
    ensures
        r@ == caption(label@, ok),
{
    joined(
        label,
        if ok {
            " ✓"
        } else {
            " —"
        },
    )
}

/// Writes the line below a display's name.
fn description_text(d: &DisplayInfo, pq: &str) -> (r: String)
    ensures
        r@ == display_description(d@, pq@),
{
    let mut r: String = match &d.hdmi_ver {
        Some(v) => v.clone(),
        None => match &d.dp_ver {
            Some(v) => v.clone(),
            None => "?".to_owned(),
        },
    };
    if d.max_lum_nits > 0 {
        r.append(" · EDID peak ");
        r.append(u32_text(d.max_lum_nits).as_str());
        r.append(" nits  (");
        r.append(pq);
        r.append("% PQ)");
    } else {
        r.append(" · peak luminance not specified in EDID");
    }
    r
}

/// Makes a row.
fn row(title: &str, description: &str, control: Control) -> (r: Row)
    ensures
        r@ == (RowView { title: title@, description: description@, control: control@ }),
{
    Row { title: title.to_owned(), description: description.to_owned(), control }
}

/// Builds the section of the display.
fn build_display(d: &DisplayInfo, pq: &str) -> (r: Section)
    ensures
        r@ == display_section(d@, pq@),
{
    let hdr: Vec<String> = vec![
        caption_text("HDR10", d.hdr10),
        caption_text("HLG", d.hlg),
        caption_text("HDR10+", d.hdr10plus),
        caption_text("Dolby Vision", d.dolby),
    ];
    let colour: Vec<String> = vec![
        caption_text("BT.2020", d.bt2020),
        caption_text("DCI-P3", d.dci_p3),
        caption_text("DSC", d.dsc),
        caption_text("HDMI-CEC", d.cec),
    ];
    let ghost want = display_section(d@, pq@);
    assert(strings(hdr@) == want.rows[0].control->hdr);
    assert(strings(colour@) == want.rows[0].control->colour);
    let rows: Vec<Row> = vec![
        row(
            d.name.as_str(),
            description_text(d, pq).as_str(),
            Control::Capabilities { hdr, colour },
        ),
    ];
    assert(row_views(rows@) == want.rows);
    Section { heading: "Display".to_owned(), rows }
}

/// The line that names the graphics hardware and the daemon.
pub open spec fn badge(gpu_vendor: Seq<char>, daemon_alive: bool) -> Seq<char> {
    (if gpu_vendor == "amd"@ {
        "AMD  ·  Full pipeline: DEGAMMA + CTM + GAMMA + saturation + midtone"@
    } else if gpu_vendor == "intel"@ {
        "Intel  ·  Full pipeline: DEGAMMA + CTM + GAMMA + saturation + midtone"@
    } else if gpu_vendor == "nvidia"@ {
        "NVIDIA  ·  Gamma-only on desktop (PQ + midtone); full HDR + gaming via hdr-game"@
    } else {
        "GPU vendor unknown"@
    }) + if daemon_alive {
        "  ·  daemon ✓ (live reload active)"@
    } else {
        Seq::empty()
    }
}

/// Writes the line that names the graphics hardware and the daemon.
fn badge_text(gpu_vendor: &str, daemon_alive: bool) -> (r: String)
    ensures
        r@ == badge(gpu_vendor@, daemon_alive),
{
    let mut r: String = (if same_text(gpu_vendor, "amd") {
        "AMD  ·  Full pipeline: DEGAMMA + CTM + GAMMA + saturation + midtone"
    } else if same_text(gpu_vendor, "intel") {
        "Intel  ·  Full pipeline: DEGAMMA + CTM + GAMMA + saturation + midtone"
    } else if same_text(gpu_vendor, "nvidia") {
        "NVIDIA  ·  Gamma-only on desktop (PQ + midtone); full HDR + gaming via hdr-game"
    } else {
        "GPU vendor unknown"
    }).to_owned();
    if daemon_alive {
        r.append("  ·  daemon ✓ (live reload active)");
    }
    assert(badge(gpu_vendor@, false) == r@ || daemon_alive);
    r
}

/// The section of the HDR switch.
pub open spec fn output_section(hdr_enabled: bool) -> SectionView {
    SectionView {
        heading: "HDR Output"@,
        rows: seq![
            RowView {
                title: "Enable HDR10"@,
                description: "BT.2020 + PQ (ST2084) · kms-hdr.service"@,
                control: ControlView::Toggle { switch: Switch::HdrToggle, on: hdr_enabled },
            },
        ],
    }
}

/// Builds the section of the HDR switch.
fn build_output(hdr_enabled: bool) -> (r: Section)
    ensures
        r@ == output_section(hdr_enabled),
{
    let rows: Vec<Row> = vec![
        row(
            "Enable HDR10",
            "BT.2020 + PQ (ST2084) · kms-hdr.service",
            Control::Toggle { switch: Switch::HdrToggle, on: hdr_enabled },
        ),
    ];
    assert(row_views(rows@) == output_section(hdr_enabled).rows);
    Section { heading: "HDR Output".to_owned(), rows }
}

/// A luminance and its place on the PQ scale.
pub open spec fn nits_label(nits: u32, pq: Seq<char>) -> Seq<char> {
    decimal(nits as nat) + " nits  ("@ + pq + "% PQ)"@
}

/// Writes a luminance and its place on the PQ scale.
fn nits_text(nits: u32, pq: &str) -> (r: String)
    ensures
        r@ == nits_label(nits, pq@),
{
    let mut r: String = u32_text(nits);
    r.append(" nits  (");
    r.append(pq);
    r.append("% PQ)");
    r
}

/// The section of the brightness.
pub open spec fn brightness_section(c: HdrConfView, readouts: ReadoutsView) -> SectionView {
    SectionView {
        heading: "Brightness"@,
        rows: seq![
            RowView {
                title: "SDR White"@,
                description: "Brightness of desktop/SDR content in HDR mode"@,
                control: ControlView::Slider {
                    knob: Knob::SdrNits,
                    min: 80,
                    max: 400,
                    step: 1,
                    value: c.sdr_nits,
                    text: nits_label(c.sdr_nits, readouts.sdr_pq),
                    text_width: 140,
                },
            },
            RowView {
                title: "Display Peak"@,
                description: "Your display's maximum HDR luminance"@,
                control: ControlView::Slider {
                    knob: Knob::PeakNits,
                    min: 400,
                    max: 1200,
                    step: 10,
                    value: c.peak_nits,
                    text: nits_label(c.peak_nits, readouts.peak_pq),
                    text_width: 140,
                },
            },
        ],
    }
}

/// Builds the section of the brightness.
fn build_brightness(c: &HdrConf, readouts: &Readouts) -> (r: Section)
    ensures
        r@ == brightness_section(c@, readouts@),
{
    let rows: Vec<Row> = vec![
        row(
            "SDR White",
            "Brightness of desktop/SDR content in HDR mode",
            Control::Slider {
                knob: Knob::SdrNits,
                min: 80,
                max: 400,
                step: 1,
                value: c.sdr_nits,
                text: nits_text(c.sdr_nits, readouts.sdr_pq.as_str()),
                text_width: 140,
            },
        ),
        row(
            "Display Peak",
            "Your display's maximum HDR luminance",
            Control::Slider {
                knob: Knob::PeakNits,
                min: 400,
                max: 1200,
                step: 10,
                value: c.peak_nits,
                text: nits_text(c.peak_nits, readouts.peak_pq.as_str()),
                text_width: 140,
            },
        ),
    ];
    assert(row_views(rows@) == brightness_section(c@, readouts@).rows);
    Section { heading: "Brightness".to_owned(), rows }
}

/// A number followed by a unit.
pub open spec fn with_unit(n: u32, unit: Seq<char>) -> Seq<char> {
    decimal(n as nat) + unit
}

/// Writes a number followed by a unit.
fn unit_text(n: u32, unit: &str) -> (r: String)
    ensures
        r@ == with_unit(n, unit@),
{
    joined(u32_text(n).as_str(), unit)
}

/// The choices of the gamut menu.
pub open spec fn gamut_options() -> Seq<Seq<char>> {
    seq![
        "BT.2020  (full wide colour — UHDTV / DCI cinemas)"@,
        "DCI-P3 D65  (Apple / cinema mid-gamut)"@,
        "sRGB  (no gamut expansion)"@,
    ]
}

/// The position of a gamut in its menu; an unknown one stands at the first.
pub open spec fn gamut_position(mode: Seq<char>) -> usize {
    if mode == "dci-p3"@ {
        1
    } else if mode == "srgb"@ {
        2
    } else {
        0
    }
}

/// A heading that says where its settings have no effect.
pub open spec fn limited_heading(
    limited: bool,
    heading: Seq<char>,
    limited_heading: Seq<char>,
) -> Seq<char> {
    if limited {
        limited_heading
    } else {
        heading
    }
}

/// The section of the colours.
pub open spec fn colour_section(c: HdrConfView, is_nvidia: bool) -> SectionView {
    SectionView {
        heading: limited_heading(is_nvidia, "Colour"@, "Colour  (AMD/Intel only)"@),
        rows: seq![
            RowView {
                title: "Target Gamut"@,
                description: "Colour space the CTM matrix expands sRGB into"@,
                control: ControlView::Dropdown {
                    menu: Menu::GamutMode,
                    options: gamut_options(),
                    selected: Some(gamut_position(c.gamut_mode)),
                },
            },
            RowView {
                title: "Expansion"@,
                description: "0% = sRGB identical · 100% = full target gamut"@,
                control: ControlView::Slider {
                    knob: Knob::Gamut,
                    min: 0,
                    max: 100,
                    step: 1,
                    value: c.gamut,
                    text: with_unit(c.gamut, "%"@),
                    text_width: 48,
                },
            },
        ],
    }
}

/// Builds the section of the colours.
fn build_colour(c: &HdrConf, is_nvidia: bool) -> (r: Section)
    ensures
        r@ == colour_section(c@, is_nvidia),
{
    let options: Vec<String> = vec![
        "BT.2020  (full wide colour — UHDTV / DCI cinemas)".to_owned(),
        "DCI-P3 D65  (Apple / cinema mid-gamut)".to_owned(),
        "sRGB  (no gamut expansion)".to_owned(),
    ];
    assert(strings(options@) == gamut_options());
    let mode: &str = c.gamut_mode.as_str();
    let selected: usize = if same_text(mode, "dci-p3") {
        1
    } else if same_text(mode, "srgb") {
        2
    } else {
        0
    };
    let rows: Vec<Row> = vec![
        row(
            "Target Gamut",
            "Colour space the CTM matrix expands sRGB into",
            Control::Dropdown { menu: Menu::GamutMode, options, selected: Some(selected) },
        ),
        row(
            "Expansion",
            "0% = sRGB identical · 100% = full target gamut",
            Control::Slider {
                knob: Knob::Gamut,
                min: 0,
                max: 100,
                step: 1,
                value: c.gamut,
                text: unit_text(c.gamut, "%"),
                text_width: 48,
            },
        ),
    ];
    assert(row_views(rows@) == colour_section(c@, is_nvidia).rows);
    let heading: &str = if is_nvidia {
        "Colour  (AMD/Intel only)"
    } else {
        "Colour"
    };
    Section { heading: heading.to_owned(), rows }
}

/// The section of the colour intensity.
pub open spec fn intensity_section(c: HdrConfView, is_nvidia: bool) -> SectionView {
    SectionView {
        heading: limited_heading(
            is_nvidia,
            "Color Intensity"@,
            "Color Intensity  (AMD/Intel only)"@,
        ),
        rows: seq![
            RowView {
                title: "Saturation"@,
                description:
                    "Color vividness via BT.709 saturation matrix · 100% = neutral · 150% = vivid"@,
                control: ControlView::Slider {
                    knob: Knob::Saturation,
                    min: 50,
                    max: 200,
                    step: 5,
                    value: c.saturation,
                    text: with_unit(c.saturation, "%"@),
                    text_width: 52,
                },
            },
        ],
    }
}

/// Builds the section of the colour intensity.
fn build_intensity(c: &HdrConf, is_nvidia: bool) -> (r: Section)
    ensures
        r@ == intensity_section(c@, is_nvidia),
{
    let rows: Vec<Row> = vec![
        row(
            "Saturation",
            "Color vividness via BT.709 saturation matrix · 100% = neutral · 150% = vivid",
            Control::Slider {
                knob: Knob::Saturation,
                min: 50,
                max: 200,
                step: 5,
                value: c.saturation,
                text: unit_text(c.saturation, "%"),
                text_width: 52,
            },
        ),
    ];
    assert(row_views(rows@) == intensity_section(c@, is_nvidia).rows);
    let heading: &str = if is_nvidia {
        "Color Intensity  (AMD/Intel only)"
    } else {
        "Color Intensity"
    };
    Section { heading: heading.to_owned(), rows }
}

/// What a midtone gamma does to the picture.
pub open spec fn midtone_description(gamma: u32) -> Seq<char> {
    decimal(gamma as nat) + if gamma > 110 {
        "%  — HDR punch (darkened midtones, higher contrast)"@
    } else if gamma < 90 {
        "%  — lifted midtones (lower contrast, may look washed)"@
    } else {
        "%  — neutral"@
    }
}

/// The section of the tone mapping.
pub open spec fn tone_section(c: HdrConfView) -> SectionView {
    SectionView {
        heading: "Tone Mapping"@,
        rows: seq![
            RowView {
                title: "Midtone Gamma"@,
                description: midtone_description(c.midtone_gamma),
                control: ControlView::Slider {
                    knob: Knob::MidtoneGamma,
                    min: 30,
                    max: 250,
                    step: 5,
                    value: c.midtone_gamma,
                    text: with_unit(c.midtone_gamma, "%"@),
                    text_width: 52,
                },
            },
        ],
    }
}

/// Writes what a midtone gamma does to the picture.
fn midtone_text(gamma: u32) -> (r: String)
    ensures
        r@ == midtone_description(gamma),
{
    unit_text(
        gamma,
        if gamma > 110 {
            "%  — HDR punch (darkened midtones, higher contrast)"
        } else if gamma < 90 {
            "%  — lifted midtones (lower contrast, may look washed)"
        } else {
            "%  — neutral"
        },
    )
}

/// Builds the section of the tone mapping.
fn build_tone(c: &HdrConf) -> (r: Section)
    ensures
        r@ == tone_section(c@),
{
    let rows: Vec<Row> = vec![
        row(
            "Midtone Gamma",
            midtone_text(c.midtone_gamma).as_str(),
            Control::Slider {
                knob: Knob::MidtoneGamma,
                min: 30,
                max: 250,
                step: 5,
                value: c.midtone_gamma,
                text: unit_text(c.midtone_gamma, "%"),
                text_width: 52,
            },
        ),
    ];
    assert(row_views(rows@) == tone_section(c@).rows);
    Section { heading: "Tone Mapping".to_owned(), rows }
}

/// The choices of the bit depth menu.
pub open spec fn depth_options() -> Seq<Seq<char>> {
    seq![
        "8 bpc  (legacy displays)"@,
        "10 bpc  (recommended — HDR10)"@,
        "12 bpc  (reference monitors / HDR+)"@,
    ]
}

/// The position of a bit depth in its menu; an unknown one stands at ten bits.
pub open spec fn depth_position(bpc: u32) -> usize {
    if bpc == 8 {
        0
    } else if bpc == 12 {
        2
    } else {
        1
    }
}

/// The section of the output format.
pub open spec fn format_section(c: HdrConfView) -> SectionView {
    SectionView {
        heading: "Output Format"@,
        rows: seq![
            RowView {
                title: "Bit Depth"@,
                description: "Requested via max_requested_bpc on the connector"@,
                control: ControlView::Dropdown {
                    menu: Menu::BitDepth,
                    options: depth_options(),
                    selected: Some(depth_position(c.max_bpc)),
                },
            },
        ],
    }
}

/// Builds the section of the output format.
fn build_format(c: &HdrConf) -> (r: Section)
    ensures
        r@ == format_section(c@),
{
    let options: Vec<String> = vec![
        "8 bpc  (legacy displays)".to_owned(),
        "10 bpc  (recommended — HDR10)".to_owned(),
        "12 bpc  (reference monitors / HDR+)".to_owned(),
    ];
    assert(strings(options@) == depth_options());
    let selected: usize = match c.max_bpc {
        8 => 0,
        12 => 2,
        _ => 1,
    };
    let rows: Vec<Row> = vec![
        row(
            "Bit Depth",
            "Requested via max_requested_bpc on the connector",
            Control::Dropdown { menu: Menu::BitDepth, options, selected: Some(selected) },
        ),
    ];
    assert(row_views(rows@) == format_section(c@).rows);
    Section { heading: "Output Format".to_owned(), rows }
}

/// The choices of the upscaler menu.
pub open spec fn upscale_options() -> Seq<Seq<char>> {
    seq![
        "None  (native res)"@,
        "FSR  (AMD FidelityFX Super Resolution)"@,
        "NIS  (NVIDIA Image Scaling)"@,
        "DLSS  (Deep Learning Super Sampling)"@,
        "Integer  (pixel-perfect integer scale)"@,
    ]
}

/// The position of an upscaler in its menu; an unknown one stands at none.
pub open spec fn upscale_position(name: Seq<char>) -> usize {
    if name == "fsr"@ {
        1
    } else if name == "nis"@ {
        2
    } else if name == "dlss"@ {
        3
    } else if name == "integer"@ {
        4
    } else {
        0
    }
}

/// Finds the position of an upscaler in its menu.
fn find_upscale(name: &str) -> (r: usize)
    ensures
        r == upscale_position(name@),
{
    if same_text(name, "fsr") {
        1
    } else if same_text(name, "nis") {
        2
    } else if same_text(name, "dlss") {
        3
    } else if same_text(name, "integer") {
        4
    } else {
        0
    }
}

/// The section of the gaming settings.
pub open spec fn gaming_section(c: NvidiaConfView, vibrance_pct: u32) -> SectionView {
    SectionView {
        heading: "NVIDIA Gaming"@,
        rows: seq![
            RowView {
                title: "RTX Smooth Motion"@,
                description: "Frame generation via VK_LAYER_NV_present — Vulkan + DXVK/Proton"@,
                control: ControlView::Toggle {
                    switch: Switch::NvSmoothMotion,
                    on: c.smooth_motion,
                },
            },
            RowView {
                title: "NVIDIA Reflex"@,
                description: "Low-latency via NvAPI (PROTON_ENABLE_NVAPI + DXVK_ENABLE_NVAPI)"@,
                control: ControlView::Toggle { switch: Switch::NvReflex, on: c.reflex },
            },
            RowView {
                title: "DLDSR"@,
                description:
                    "Deep Learning Dynamic Super Resolution — renders higher, displays native"@,
                control: ControlView::Toggle { switch: Switch::NvDldsr, on: c.dldsr },
            },
            RowView {
                title: "Digital Vibrance"@,
                description: "Colour saturation via nvibrant ioctl · 0% = neutral · 100% = max"@,
                control: ControlView::Vibrance {
                    low: (-1024) as i32,
                    high: 1023,
                    stride: 32,
                    level: c.vibrance,
                    text: with_unit(vibrance_pct, "%"@),
                    text_width: 48,
                },
            },
            RowView {
                title: "Upscaling"@,
                description: "Algorithm used inside Gamescope for resolution scaling"@,
                control: ControlView::Dropdown {
                    menu: Menu::NvUpscale,
                    options: upscale_options(),
                    selected: Some(upscale_position(c.upscale)),
                },
            },
        ],
    }
}

/// Builds the section of the gaming settings.
fn build_gaming(c: &NvidiaConf, vibrance_pct: u32) -> (r: Section)
    ensures
        r@ == gaming_section(c@, vibrance_pct),
{
    let options: Vec<String> = vec![
        "None  (native res)".to_owned(),
        "FSR  (AMD FidelityFX Super Resolution)".to_owned(),
        "NIS  (NVIDIA Image Scaling)".to_owned(),
        "DLSS  (Deep Learning Super Sampling)".to_owned(),
        "Integer  (pixel-perfect integer scale)".to_owned(),
    ];
    assert(strings(options@) == upscale_options());
    let rows: Vec<Row> = vec![
        row(
            "RTX Smooth Motion",
            "Frame generation via VK_LAYER_NV_present — Vulkan + DXVK/Proton",
            Control::Toggle { switch: Switch::NvSmoothMotion, on: c.smooth_motion },
        ),
        row(
            "NVIDIA Reflex",
            "Low-latency via NvAPI (PROTON_ENABLE_NVAPI + DXVK_ENABLE_NVAPI)",
            Control::Toggle { switch: Switch::NvReflex, on: c.reflex },
        ),
        row(
            "DLDSR",
            "Deep Learning Dynamic Super Resolution — renders higher, displays native",
            Control::Toggle { switch: Switch::NvDldsr, on: c.dldsr },
        ),
        row(
            "Digital Vibrance",
            "Colour saturation via nvibrant ioctl · 0% = neutral · 100% = max",
            Control::Vibrance {
                low: -1024,
                high: 1023,
                stride: 32,
                level: c.vibrance,
                text: unit_text(vibrance_pct, "%"),
                text_width: 48,
            },
        ),
        row(
            "Upscaling",
            "Algorithm used inside Gamescope for resolution scaling",
            Control::Dropdown {
                menu: Menu::NvUpscale,
                options,
                selected: Some(find_upscale(c.upscale.as_str())),
            },
        ),
    ];
    assert(row_views(rows@) == gaming_section(c@, vibrance_pct).rows);
    Section { heading: "NVIDIA Gaming".to_owned(), rows }
}

/// The choices of the resolution menu.
pub open spec fn resolution_options() -> Seq<Seq<char>> {
    seq![
        "1920 × 1080  (1080p)"@,
        "2560 × 1440  (1440p)"@,
        "3840 × 2160  (4K UHD)"@,
        "5120 × 2880  (5K)"@,
        "7680 × 4320  (8K)"@,
    ]
}

/// The position of a resolution in its menu; none where the menu lacks it.
pub open spec fn resolution_position(w: u32, h: u32) -> Option<usize> {
    if (w, h) == resolution(0) {
        Some(0)
    } else if (w, h) == resolution(1) {
        Some(1)
    } else if (w, h) == resolution(2) {
        Some(2)
    } else if (w, h) == resolution(3) {
        Some(3)
    } else if (w, h) == resolution(4) {
        Some(4)
    } else {
        None
    }
}

/// Finds the position of a resolution in its menu.
fn find_resolution(w: u32, h: u32) -> (r: Option<usize>)
    ensures
        r == resolution_position(w, h),
{
    if w == 1920 && h == 1080 {
        Some(0)
    } else if w == 2560 && h == 1440 {
        Some(1)
    } else if w == 3840 && h == 2160 {
        Some(2)
    } else if w == 5120 && h == 2880 {
        Some(3)
    } else if w == 7680 && h == 4320 {
        Some(4)
    } else {
        None
    }
}

/// The section of the game compositor.
pub open spec fn gamescope_section(c: NvidiaConfView) -> SectionView {
    SectionView {
        heading: "Gamescope (hdr-game)"@,
        rows: seq![
            RowView {
                title: "Output Resolution"@,
                description:
                    "Gamescope target resolution — should match your display native res"@,
                control: ControlView::Dropdown {
                    menu: Menu::NvGsResolution,
                    options: resolution_options(),
                    selected: resolution_position(c.gs_width, c.gs_height),
                },
            },
            RowView {
                title: "Target FPS"@,
                description: "Gamescope framerate cap"@,
                control: ControlView::Slider {
                    knob: Knob::NvGsFps,
                    min: 30,
                    max: 360,
                    step: 30,
                    value: c.gs_fps,
                    text: with_unit(c.gs_fps, " fps"@),
                    text_width: 68,
                },
            },
            RowView {
                title: "Apply NVIDIA Settings"@,
                description:
                    "Saves to /etc/hdr-game.conf — picked up by hdr-game on next launch"@,
                control: ControlView::Buttons {
                    buttons: seq![
                        ButtonView {
                            label: "Save"@,
                            style: ButtonStyle::Suggested,
                            message: Message::NvApply,
                        },
                    ],
                },
            },
        ],
    }
}

/// Makes a button.
fn button(label: &str, style: ButtonStyle, message: Message) -> (r: Button)
    ensures
        r@ == (ButtonView { label: label@, style, message }),
{
    Button { label: label.to_owned(), style, message }
}

/// Builds the section of the game compositor.
fn build_gamescope(c: &NvidiaConf) -> (r: Section)
    ensures
        r@ == gamescope_section(c@),
{
    let options: Vec<String> = vec![
        "1920 × 1080  (1080p)".to_owned(),
        "2560 × 1440  (1440p)".to_owned(),
        "3840 × 2160  (4K UHD)".to_owned(),
        "5120 × 2880  (5K)".to_owned(),
        "7680 × 4320  (8K)".to_owned(),
    ];
    assert(strings(options@) == resolution_options());
    let buttons: Vec<Button> = vec![button("Save", ButtonStyle::Suggested, Message::NvApply)];
    let ghost want = gamescope_section(c@).rows;
    assert(button_views(buttons@) == want[2].control->buttons);
    let rows: Vec<Row> = vec![
        row(
            "Output Resolution",
            "Gamescope target resolution — should match your display native res",
            Control::Dropdown {
                menu: Menu::NvGsResolution,
                options,
                selected: find_resolution(c.gs_width, c.gs_height),
            },
        ),
        row(
            "Target FPS",
            "Gamescope framerate cap",
            Control::Slider {
                knob: Knob::NvGsFps,
                min: 30,
                max: 360,
                step: 30,
                value: c.gs_fps,
                text: unit_text(c.gs_fps, " fps"),
                text_width: 68,
            },
        ),
        row(
            "Apply NVIDIA Settings",
            "Saves to /etc/hdr-game.conf — picked up by hdr-game on next launch",
            Control::Buttons { buttons },
        ),
    ];
    assert(row_views(rows@) == want);
    Section { heading: "Gamescope (hdr-game)".to_owned(), rows }
}

/// The time after which the display dims.
pub open spec fn dim_label(minutes: u32) -> Seq<char> {
    if minutes == 0 {
        "Off"@
    } else {
        with_unit(minutes, " min"@)
    }
}

/// Writes the time after which the display dims.
fn dim_text(minutes: u32) -> (r: String)
    ensures
        r@ == dim_label(minutes),
{
    if minutes == 0 {
        "Off".to_owned()
    } else {
        unit_text(minutes, " min")
    }
}

/// The section of the OLED care.
pub open spec fn oled_section(c: HdrConfView) -> SectionView {
    SectionView {
        heading: "OLED Care"@,
        rows: seq![
            RowView {
                title: "Longevity Preset"@,
                description:
                    "SDR 150 nits · HDR peak 600 nits — reduces panel stress for daily desktop use"@,
                control: ControlView::Toggle { switch: Switch::OledPreset, on: c.oled_preset },
            },
            RowView {
                title: "Auto-Dim"@,
                description:
                    "Dim to 50 nits after idle timeout via swayidle · requires swayidle installed"@,
                control: ControlView::Slider {
                    knob: Knob::OledDimTimeout,
                    min: 0,
                    max: 60,
                    step: 5,
                    value: c.oled_dim_min,
                    text: dim_label(c.oled_dim_min),
                    text_width: 52,
                },
            },
            RowView {
                title: "Pixel Shift"@,
                description:
                    "Handled by COSMIC/KDE compositor — enable in Display → Screen Saver settings"@,
                control: ControlView::Note { text: "compositor setting"@ },
            },
        ],
    }
}

/// Builds the section of the OLED care.
fn build_oled(c: &HdrConf) -> (r: Section)
    ensures
        r@ == oled_section(c@),
{
    let rows: Vec<Row> = vec![
        row(
            "Longevity Preset",
            "SDR 150 nits · HDR peak 600 nits — reduces panel stress for daily desktop use",
            Control::Toggle { switch: Switch::OledPreset, on: c.oled_preset },
        ),
        row(
            "Auto-Dim",
            "Dim to 50 nits after idle timeout via swayidle · requires swayidle installed",
            Control::Slider {
                knob: Knob::OledDimTimeout,
                min: 0,
                max: 60,
                step: 5,
                value: c.oled_dim_min,
                text: dim_text(c.oled_dim_min),
                text_width: 52,
            },
        ),
        row(
            "Pixel Shift",
            "Handled by COSMIC/KDE compositor — enable in Display → Screen Saver settings",
            Control::Note { text: "compositor setting".to_owned() },
        ),
    ];
    assert(row_views(rows@) == oled_section(c@).rows);
    Section { heading: "OLED Care".to_owned(), rows }
}

/// The button that shows a test pattern.
pub open spec fn pattern_button(p: CalibPattern) -> ButtonView {
    ButtonView {
        label: p.label_text(),
        style: ButtonStyle::Standard,
        message: Message::ShowCalPat(p),
    }
}

/// A button for each test pattern, and one that closes the calibration window
/// while it is open.
pub open spec fn pattern_buttons(cal_open: bool) -> Seq<ButtonView> {
    let patterns = seq![
        pattern_button(CalibPattern::Black),
        pattern_button(CalibPattern::DarkGray),
        pattern_button(CalibPattern::Gray50),
        pattern_button(CalibPattern::White),
        pattern_button(CalibPattern::Red),
        pattern_button(CalibPattern::Green),
        pattern_button(CalibPattern::Blue),
        pattern_button(CalibPattern::SdrHdrSplit),
    ];
    if cal_open {
        patterns.push(
            ButtonView {
                label: "✕ Close"@,
                style: ButtonStyle::Destructive,
                message: Message::CloseCalPat,
            },
        )
    } else {
        patterns
    }
}

/// Makes the button that shows a test pattern.
fn build_pattern(p: CalibPattern) -> (r: Button)
    ensures
        r@ == pattern_button(p),
{
    button(p.label(), ButtonStyle::Standard, Message::ShowCalPat(p))
}

/// Builds the buttons of the test patterns.
fn build_patterns(cal_open: bool) -> (r: Vec<Button>)
    ensures
        button_views(r@) == pattern_buttons(cal_open),
{
    let mut r: Vec<Button> = vec![
        build_pattern(CalibPattern::Black),
        build_pattern(CalibPattern::DarkGray),
        build_pattern(CalibPattern::Gray50),
        build_pattern(CalibPattern::White),
        build_pattern(CalibPattern::Red),
        build_pattern(CalibPattern::Green),
        build_pattern(CalibPattern::Blue),
        build_pattern(CalibPattern::SdrHdrSplit),
    ];
    assert(button_views(r@) == pattern_buttons(false));
    if cal_open {
        r.push(button("✕ Close", ButtonStyle::Destructive, Message::CloseCalPat));
        assert(button_views(r@) == pattern_buttons(true));
    }
    r
}

/// The section of the calibration.
pub open spec fn calibration_section(cal_open: bool) -> SectionView {
    SectionView {
        heading: "HDR Calibration"@,
        rows: seq![
            RowView {
                title: "Calibrate HDR"@,
                description:
                    "Adjust SDR content brightness interactively — like Windows HDR Calibration"@,
                control: ControlView::Buttons {
                    buttons: seq![
                        ButtonView {
                            label: "Calibrate…"@,
                            style: ButtonStyle::Suggested,
                            message: Message::CalibrateHdr,
                        },
                    ],
                },
            },
            RowView {
                title: "Test Patterns"@,
                description: "Full-screen colour fields — click or press Esc to close"@,
                control: ControlView::Buttons { buttons: pattern_buttons(cal_open) },
            },
        ],
    }
}

/// Builds the section of the calibration.
fn build_calibration(cal_open: bool) -> (r: Section)
    ensures
        r@ == calibration_section(cal_open),
{
    let buttons: Vec<Button> = vec![
        button("Calibrate…", ButtonStyle::Suggested, Message::CalibrateHdr),
    ];
    let ghost want = calibration_section(cal_open).rows;
    assert(button_views(buttons@) == want[0].control->buttons);
    let rows: Vec<Row> = vec![
        row(
            "Calibrate HDR",
            "Adjust SDR content brightness interactively — like Windows HDR Calibration",
            Control::Buttons { buttons },
        ),
        row(
            "Test Patterns",
            "Full-screen colour fields — click or press Esc to close",
            Control::Buttons { buttons: build_patterns(cal_open) },
        ),
    ];
    assert(row_views(rows@) == want);
    Section { heading: "HDR Calibration".to_owned(), rows }
}

/// Whether the panel shows a display that is an OLED display.
pub open spec fn shows_oled(s: CosmicHdrView) -> bool {
    match s.display {
        Some(d) => d.is_oled,
        None => false,
    }
}

/// The sections that every page starts with.
pub open spec fn common_sections(s: CosmicHdrView, readouts: ReadoutsView) -> Seq<SectionView> {
    seq![
        output_section(s.hdr_enabled),
        brightness_section(s.conf, readouts),
        colour_section(s.conf, s.is_nvidia),
        intensity_section(s.conf, s.is_nvidia),
        tone_section(s.conf),
        format_section(s.conf),
    ]
}

/// The sections of NVIDIA hardware.
pub open spec fn nvidia_sections(s: CosmicHdrView, readouts: ReadoutsView) -> Seq<SectionView> {
    if s.is_nvidia {
        seq![
            gaming_section(s.nvidia_conf, readouts.vibrance_pct),
            gamescope_section(s.nvidia_conf),
        ]
    } else {
        Seq::empty()
    }
}

/// The sections of OLED displays.
pub open spec fn oled_sections(s: CosmicHdrView) -> Seq<SectionView> {
    if shows_oled(s) {
        seq![oled_section(s.conf)]
    } else {
        Seq::empty()
    }
}

/// The page that a state shows.
pub open spec fn page_of(
    s: CosmicHdrView,
    daemon_alive: bool,
    readouts: ReadoutsView,
) -> PageView {
    PageView {
        display: match s.display {
            Some(d) => Some(display_section(d, readouts.display_pq)),
            None => None,
        },
        badge: badge(s.gpu_vendor, daemon_alive),
        sections: common_sections(s, readouts) + nvidia_sections(s, readouts) + oled_sections(s)
            + seq![calibration_section(s.cal_open)],
        status: s.status,
        buttons: seq![
            ButtonView {
                label: "Reset to SDR"@,
                style: ButtonStyle::Destructive,
                message: Message::Reset,
            },
            ButtonView {
                label: "Apply"@,
                style: ButtonStyle::Suggested,
                message: Message::Apply,
            },
        ],
    }
}

/// The contents of a longer list of sections.
proof fn lemma_section_push(v: Seq<Section>, s: Section)
    ensures
        section_views(v.push(s)) == section_views(v).push(s@),
{
    assert(section_views(v.push(s)) == section_views(v).push(s@));
}

impl CosmicHdr {
    /// Builds the sections of the page.
    fn build_sections(&self, readouts: &Readouts) -> (r: Vec<Section>)
        ensures
            section_views(r@) == page_of(self@, false, readouts@).sections,
    {
        let mut r: Vec<Section> = vec![
            build_output(self.hdr_enabled),
            build_brightness(&self.conf, readouts),
            build_colour(&self.conf, self.is_nvidia),
            build_intensity(&self.conf, self.is_nvidia),
            build_tone(&self.conf),
            build_format(&self.conf),
        ];
        assert(section_views(r@) == common_sections(self@, readouts@));
        let ghost common = common_sections(self@, readouts@);
        if self.is_nvidia {
            let gaming: Section = build_gaming(&self.nvidia_conf, readouts.vibrance_pct);
            let gamescope: Section = build_gamescope(&self.nvidia_conf);
            proof {
                lemma_section_push(r@, gaming);
                lemma_section_push(r@.push(gaming), gamescope);
            }
            r.push(gaming);
            r.push(gamescope);
        }
        let ghost upper = common + nvidia_sections(self@, readouts@);
        assert(section_views(r@) == upper);
        let oled: bool = match &self.display {
            Some(d) => d.is_oled,
            None => false,
        };
        if oled {
            let care: Section = build_oled(&self.conf);
            proof {
                lemma_section_push(r@, care);
            }
            r.push(care);
        }
        assert(section_views(r@) == upper + oled_sections(self@));
        let calibration: Section = build_calibration(self.cal_open);
        proof {
            lemma_section_push(r@, calibration);
        }
        r.push(calibration);
        assert(section_views(r@) == upper + oled_sections(self@) + seq![
            calibration_section(self.cal_open),
        ]);
        r
    }

    /// The page that the panel shows. `daemon_alive` says whether the daemon
    /// is alive now.
    pub fn page(&self, daemon_alive: bool, readouts: &Readouts) -> (r: Page)
        ensures
            r@ == page_of(self@, daemon_alive, readouts@),
    {
        let display: Option<Section> = match &self.display {
            Some(d) => Some(build_display(d, readouts.display_pq.as_str())),
            None => None,
        };
        let status: Option<String> = match &self.status {
            Some(s) => Some(s.clone()),
            None => None,
        };
        let buttons: Vec<Button> = vec![
            button("Reset to SDR", ButtonStyle::Destructive, Message::Reset),
            button("Apply", ButtonStyle::Suggested, Message::Apply),
        ];
        assert(button_views(buttons@) == page_of(self@, daemon_alive, readouts@).buttons);
        Page {
            display,
            badge: badge_text(self.gpu_vendor, daemon_alive),
            sections: self.build_sections(readouts),
            status,
            buttons,
        }
    }
}

/// The control of a menu on the page of a state, where the page has it.
pub open spec fn menu_control(
    s: CosmicHdrView,
    menu: Menu,
    daemon_alive: bool,
    readouts: ReadoutsView,
) -> Option<ControlView> {
    let sections = page_of(s, daemon_alive, readouts).sections;
    match menu {
        Menu::GamutMode => Some(sections[2].rows[0].control),
        Menu::BitDepth => Some(sections[5].rows[0].control),
        Menu::NvUpscale => if s.is_nvidia {
            Some(sections[6].rows[4].control)
        } else {
            None
        },
        Menu::NvGsResolution => if s.is_nvidia {
            Some(sections[7].rows[0].control)
        } else {
            None
        },
    }
}

/// The names of the gamuts and of the upscalers are told apart by their
/// letters.
proof fn lemma_menu_names()
    ensures
        "bt2020"@ != "dci-p3"@,
        "bt2020"@ != "srgb"@,
        "dci-p3"@ != "srgb"@,
        "none"@ != "fsr"@,
        "none"@ != "nis"@,
        "none"@ != "dlss"@,
        "none"@ != "integer"@,
        "fsr"@ != "nis"@,
        "fsr"@ != "dlss"@,
        "fsr"@ != "integer"@,
        "nis"@ != "dlss"@,
        "nis"@ != "integer"@,
        "dlss"@ != "integer"@,
{
    reveal_strlit("bt2020");
    reveal_strlit("dci-p3");
    reveal_strlit("srgb");
    reveal_strlit("none");
    reveal_strlit("fsr");
    reveal_strlit("nis");
    reveal_strlit("dlss");
    reveal_strlit("integer");
    assert("bt2020"@[0] == 'b');
    assert("dci-p3"@[0] == 'd');
    assert("srgb"@[0] == 's');
    assert("none"@.len() == 4 && "none"@[0] == 'n');
    assert("fsr"@.len() == 3 && "fsr"@[0] == 'f');
    assert("nis"@.len() == 3 && "nis"@[0] == 'n');
    assert("dlss"@.len() == 4 && "dlss"@[0] == 'd');
    assert("integer"@.len() == 7);
}

/// A choice that is made is the choice that is shown: where the page has a
/// menu, picking one of its options selects that option.
#[verifier::rlimit(50)]
pub proof fn law_choice_is_shown(
    s: CosmicHdrView,
    menu: Menu,
    i: usize,
    daemon_alive: bool,
    readouts: ReadoutsView,
)
    requires
        i < menu_len(menu),
    ensures
        match menu_control(
            updated(s, menu_message(menu, i), daemon_alive),
            menu,
            daemon_alive,
            readouts,
        ) {
            Some(ControlView::Dropdown { menu: m, options, selected }) => m == menu && options.len()
                == menu_len(menu) && selected == Some(i),
            Some(_) => false,
            None => (menu is NvUpscale || menu is NvGsResolution) && !s.is_nvidia,
        },
{
    lemma_menu_names();
}

/// The control of a knob on the page of a state, where the page has it.
pub open spec fn knob_control(
    s: CosmicHdrView,
    knob: Knob,
    daemon_alive: bool,
    readouts: ReadoutsView,
) -> Option<ControlView> {
    let sections = page_of(s, daemon_alive, readouts).sections;
    match knob {
        Knob::SdrNits => Some(sections[1].rows[0].control),
        Knob::PeakNits => Some(sections[1].rows[1].control),
        Knob::Gamut => Some(sections[2].rows[1].control),
        Knob::Saturation => Some(sections[3].rows[0].control),
        Knob::MidtoneGamma => Some(sections[4].rows[0].control),
        Knob::NvGsFps => if s.is_nvidia {
            Some(sections[7].rows[1].control)
        } else {
            None
        },
        Knob::OledDimTimeout => if shows_oled(s) {
            Some(sections[sections.len() - 2].rows[1].control)
        } else {
            None
        },
    }
}

/// A value that is set is the value that is shown: where the page has a
/// slider, it stands at the value that was chosen with it.
#[verifier::rlimit(50)]
pub proof fn law_value_is_shown(
    s: CosmicHdrView,
    knob: Knob,
    v: u32,
    daemon_alive: bool,
    readouts: ReadoutsView,
)
    ensures
        match knob_control(
            updated(s, knob_message(knob, v), daemon_alive),
            knob,
            daemon_alive,
            readouts,
        ) {
            Some(ControlView::Slider { knob: k, value, .. }) => k == knob && value == v,
            Some(_) => false,
            None => (knob is NvGsFps && !s.is_nvidia) || (knob is OledDimTimeout && !shows_oled(s)),
        },
{
}

/// The control of a switch on the page of a state, where the page has it.
pub open spec fn switch_control(
    s: CosmicHdrView,
    switch: Switch,
    daemon_alive: bool,
    readouts: ReadoutsView,
) -> Option<ControlView> {
    let sections = page_of(s, daemon_alive, readouts).sections;
    match switch {
        Switch::HdrToggle => Some(sections[0].rows[0].control),
        Switch::OledPreset => if shows_oled(s) {
            Some(sections[sections.len() - 2].rows[0].control)
        } else {
            None
        },
        _ => if s.is_nvidia {
            match switch {
                Switch::NvSmoothMotion => Some(sections[6].rows[0].control),
                Switch::NvReflex => Some(sections[6].rows[1].control),
                _ => Some(sections[6].rows[2].control),
            }
        } else {
            None
        },
    }
}

/// A switch that is set is shown as it was set, where the page has it.
#[verifier::rlimit(50)]
pub proof fn law_switch_is_shown(
    s: CosmicHdrView,
    switch: Switch,
    on: bool,
    daemon_alive: bool,
    readouts: ReadoutsView,
)
    ensures
        match switch_control(
            updated(s, switch_message(switch, on), daemon_alive),
            switch,
            daemon_alive,
            readouts,
        ) {
            Some(control) => control == (ControlView::Toggle { switch, on }),
            None => if switch is OledPreset {
                !shows_oled(s)
            } else {
                switch !is HdrToggle && !s.is_nvidia
            },
        },
{
}

/// The vibrance that is set is the vibrance that is shown, where the page has
/// its slider.
#[verifier::rlimit(50)]
pub proof fn law_vibrance_is_shown(
    s: CosmicHdrView,
    v: i32,
    daemon_alive: bool,
    readouts: ReadoutsView,
)
    requires
        s.is_nvidia,
    ensures
        match page_of(
            updated(s, Message::NvVibrance(v), daemon_alive),
            daemon_alive,
            readouts,
        ).sections[6].rows[3].control {
            ControlView::Vibrance { level, .. } => level == v,
            _ => false,
        },
{
}

/// Which sections a page has: those of NVIDIA hardware and those of OLED
/// displays only where there are such, and the calibration at the end.
#[verifier::rlimit(50)]
pub proof fn law_sections(s: CosmicHdrView, daemon_alive: bool, readouts: ReadoutsView)
    ensures
        ({
            let sections = page_of(s, daemon_alive, readouts).sections;
            &&& sections.len() == 7 + (if s.is_nvidia {
                2int
            } else {
                0
            }) + (if shows_oled(s) {
                1int
            } else {
                0
            })
            &&& sections.last() == calibration_section(s.cal_open)
            &&& s.is_nvidia ==> sections[6].heading == "NVIDIA Gaming"@ && sections[7].heading
                == "Gamescope (hdr-game)"@
            &&& shows_oled(s) ==> sections[sections.len() - 2].heading == "OLED Care"@
        }),
{
}

/// The calibration window can be closed exactly while it is open.
pub proof fn law_close_button(cal_open: bool)
    ensures
        cal_open <==> exists|i: int|
            0 <= i < pattern_buttons(cal_open).len() && (#[trigger] pattern_buttons(
                cal_open,
            )[i]).message == Message::CloseCalPat,
{
    if cal_open {
        assert(pattern_buttons(true)[8].message == Message::CloseCalPat);
    }
}

} // verus!
