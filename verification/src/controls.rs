//! The parts of a page: sections, rows and controls, and the messages that the
//! controls send.

use vstd::prelude::*;

use crate::edid::opt_text;
use crate::panel::{updated, CosmicHdrView, Message};
use crate::text::strings;

verus! {

/// A setting that is on or off.
#[derive(Debug, Clone, Copy, PartialEq, Eq, Structural)]
pub enum Switch {
    HdrToggle,
    NvSmoothMotion,
    NvReflex,
    NvDldsr,
    OledPreset,
}

/// A setting with a range.
#[derive(Debug, Clone, Copy, PartialEq, Eq, Structural)]
pub enum Knob {
    SdrNits,
    PeakNits,
    Gamut,
    Saturation,
    MidtoneGamma,
    OledDimTimeout,
    NvGsFps,
}

/// A setting with a list of choices.
#[derive(Debug, Clone, Copy, PartialEq, Eq, Structural)]
pub enum Menu {
    GamutMode,
    BitDepth,
    NvUpscale,
    NvGsResolution,
}

/// How a button looks.
#[derive(Debug, Clone, Copy, PartialEq, Eq, Structural)]
pub enum ButtonStyle {
    Standard,
    Suggested,
    Destructive,
}

/// The message of a switch that was set.
pub open spec fn switch_message(switch: Switch, on: bool) -> Message {
    match switch {
        Switch::HdrToggle => Message::HdrToggle(on),
        Switch::NvSmoothMotion => Message::NvSmoothMotion(on),
        Switch::NvReflex => Message::NvReflex(on),
        Switch::NvDldsr => Message::NvDldsr(on),
        Switch::OledPreset => Message::OledPreset(on),
    }
}

/// The message of a knob that was turned.
pub open spec fn knob_message(knob: Knob, value: u32) -> Message {
    match knob {
        Knob::SdrNits => Message::SdrNits(value),
        Knob::PeakNits => Message::PeakNits(value),
        Knob::Gamut => Message::Gamut(value),
        Knob::Saturation => Message::Saturation(value),
        Knob::MidtoneGamma => Message::MidtoneGamma(value),
        Knob::OledDimTimeout => Message::OledDimTimeout(value),
        Knob::NvGsFps => Message::NvGsFps(value),
    }
}

/// The output resolution at a position of its menu.
pub open spec fn resolution(i: usize) -> (u32, u32) {
    if i == 0 {
        (1920, 1080)
    } else if i == 1 {
        (2560, 1440)
    } else if i == 2 {
        (3840, 2160)
    } else if i == 3 {
        (5120, 2880)
    } else {
        (7680, 4320)
    }
}

/// The number of choices of a menu.
pub open spec fn menu_len(menu: Menu) -> nat {
    match menu {
        Menu::GamutMode => 3,
        Menu::BitDepth => 3,
        Menu::NvUpscale => 5,
        Menu::NvGsResolution => 5,
    }
}

/// The message of a choice that was made.
pub open spec fn menu_message(menu: Menu, i: usize) -> Message {
    match menu {
        Menu::GamutMode => Message::GamutMode(i),
        Menu::BitDepth => Message::BitDepth(i),
        Menu::NvUpscale => Message::NvUpscale(i),
        Menu::NvGsResolution => Message::NvGsResolution(resolution(i).0, resolution(i).1),
    }
}

impl Switch {
    /// The message of a switch that was set.
    pub fn message(self, on: bool) -> (r: Message)
        ensures
            r == switch_message(self, on),
    {
        match self {
            Switch::HdrToggle => Message::HdrToggle(on),
            Switch::NvSmoothMotion => Message::NvSmoothMotion(on),
            Switch::NvReflex => Message::NvReflex(on),
            Switch::NvDldsr => Message::NvDldsr(on),
            Switch::OledPreset => Message::OledPreset(on),
        }
    }
}

impl Knob {
    /// The message of a knob that was turned.
    pub fn message(self, value: u32) -> (r: Message)
        ensures
            r == knob_message(self, value),
    {
        match self {
            Knob::SdrNits => Message::SdrNits(value),
            Knob::PeakNits => Message::PeakNits(value),
            Knob::Gamut => Message::Gamut(value),
            Knob::Saturation => Message::Saturation(value),
            Knob::MidtoneGamma => Message::MidtoneGamma(value),
            Knob::OledDimTimeout => Message::OledDimTimeout(value),
            Knob::NvGsFps => Message::NvGsFps(value),
        }
    }
}

/// The output resolution at a position of its menu.
fn resolution_at(i: usize) -> (r: (u32, u32))
    ensures
        r == resolution(i),
{
    match i {
        0 => (1920, 1080),
        1 => (2560, 1440),
        2 => (3840, 2160),
        3 => (5120, 2880),
        _ => (7680, 4320),
    }
}

impl Menu {
    /// The message of a choice that was made. A resolution is one of the
    /// menu's own.
    pub fn message(self, i: usize) -> (r: Message)
        requires
            self is NvGsResolution ==> i < 5,
        ensures
            r == menu_message(self, i),
    {
        match self {
            Menu::GamutMode => Message::GamutMode(i),
            Menu::BitDepth => Message::BitDepth(i),
            Menu::NvUpscale => Message::NvUpscale(i),
            Menu::NvGsResolution => {
                let (w, h) = resolution_at(i);
                Message::NvGsResolution(w, h)
            },
        }
    }
}

/// A button.
#[derive(Debug)]
pub struct Button {
    pub label: String,
    pub style: ButtonStyle,
    pub message: Message,
}

/// The contents of a button.
pub struct ButtonView {
    pub label: Seq<char>,
    pub style: ButtonStyle,
    pub message: Message,
}

impl View for Button {
    type V = ButtonView;

    open spec fn view(&self) -> ButtonView {
        ButtonView { label: self.label@, style: self.style, message: self.message }
    }
}

/// The contents of a row of buttons.
pub open spec fn button_views(v: Seq<Button>) -> Seq<ButtonView> {
    Seq::new(v.len(), |i: int| v[i]@)
}

/// What a row lets the user see or do. Texts beside sliders have a width in
/// pixels.
#[derive(Debug)]
pub enum Control {
    Toggle { switch: Switch, on: bool },
    Slider {
        knob: Knob,
        min: u32,
        max: u32,
        step: u32,
        value: u32,
        text: String,
        text_width: u16,
    },
    /// The slider of the digital vibrance, whose values are signed.
    Vibrance { low: i32, high: i32, stride: i32, level: i32, text: String, text_width: u16 },
    Dropdown { menu: Menu, options: Vec<String>, selected: Option<usize> },
    Buttons { buttons: Vec<Button> },
    Note { text: String },
    /// Two lines of captions.
    Capabilities { hdr: Vec<String>, colour: Vec<String> },
}

/// The contents of a control.
pub enum ControlView {
    Toggle { switch: Switch, on: bool },
    Slider {
        knob: Knob,
        min: u32,
        max: u32,
        step: u32,
        value: u32,
        text: Seq<char>,
        text_width: u16,
    },
    Vibrance { low: i32, high: i32, stride: i32, level: i32, text: Seq<char>, text_width: u16 },
    Dropdown { menu: Menu, options: Seq<Seq<char>>, selected: Option<usize> },
    Buttons { buttons: Seq<ButtonView> },
    Note { text: Seq<char> },
    Capabilities { hdr: Seq<Seq<char>>, colour: Seq<Seq<char>> },
}

impl View for Control {
    type V = ControlView;

    open spec fn view(&self) -> ControlView {
        match *self {
            Control::Toggle { switch, on } => ControlView::Toggle { switch, on },
            Control::Slider { knob, min, max, step, value, text, text_width } =>
                ControlView::Slider { knob, min, max, step, value, text: text@, text_width },
            Control::Vibrance { low, high, stride, level, text, text_width } =>
                ControlView::Vibrance { low, high, stride, level, text: text@, text_width },
            Control::Dropdown { menu, options, selected } => ControlView::Dropdown {
                menu,
                options: strings(options@),
                selected,
            },
            Control::Buttons { buttons } => ControlView::Buttons {
                buttons: button_views(buttons@),
            },
            Control::Note { text } => ControlView::Note { text: text@ },
            Control::Capabilities { hdr, colour } => ControlView::Capabilities {
                hdr: strings(hdr@),
                colour: strings(colour@),
            },
        }
    }
}

/// A row of a section.
#[derive(Debug)]
pub struct Row {
    pub title: String,
    pub description: String,
    pub control: Control,
}

/// The contents of a row.
pub struct RowView {
    pub title: Seq<char>,
    pub description: Seq<char>,
    pub control: ControlView,
}

impl View for Row {
    type V = RowView;

    open spec fn view(&self) -> RowView {
        RowView { title: self.title@, description: self.description@, control: self.control@ }
    }
}

/// The contents of a list of rows.
pub open spec fn row_views(v: Seq<Row>) -> Seq<RowView> {
    Seq::new(v.len(), |i: int| v[i]@)
}

/// A heading and the rows below it.
#[derive(Debug)]
pub struct Section {
    pub heading: String,
    pub rows: Vec<Row>,
}

/// The contents of a section.
pub struct SectionView {
    pub heading: Seq<char>,
    pub rows: Seq<RowView>,
}

impl View for Section {
    type V = SectionView;

    open spec fn view(&self) -> SectionView {
        SectionView { heading: self.heading@, rows: row_views(self.rows@) }
    }
}

/// The contents of a list of sections.
pub open spec fn section_views(v: Seq<Section>) -> Seq<SectionView> {
    Seq::new(v.len(), |i: int| v[i]@)
}

/// The page, from top to bottom.
#[derive(Debug)]
pub struct Page {
    /// The display, where one is known.
    pub display: Option<Section>,
    /// The line that names the graphics hardware.
    pub badge: String,
    pub sections: Vec<Section>,
    pub status: Option<String>,
    pub buttons: Vec<Button>,
}

/// The contents of the page.
pub struct PageView {
    pub display: Option<SectionView>,
    pub badge: Seq<char>,
    pub sections: Seq<SectionView>,
    pub status: Option<Seq<char>>,
    pub buttons: Seq<ButtonView>,
}

impl View for Page {
    type V = PageView;

    open spec fn view(&self) -> PageView {
        PageView {
            display: match self.display {
                Some(s) => Some(s@),
                None => None,
            },
            badge: self.badge@,
            sections: section_views(self.sections@),
            status: opt_text(self.status),
            buttons: button_views(self.buttons@),
        }
    }
}

/// Numbers that the page shows and that are worked out in floating point.
#[derive(Debug)]
pub struct Readouts {
    /// The display's peak on the PQ scale, as a percentage with one decimal.
    pub display_pq: String,
    /// The white level of SDR content on the PQ scale.
    pub sdr_pq: String,
    /// The chosen peak on the PQ scale.
    pub peak_pq: String,
    /// The digital vibrance as a percentage of its range.
    pub vibrance_pct: u32,
}

/// The contents of the readouts.
pub struct ReadoutsView {
    pub display_pq: Seq<char>,
    pub sdr_pq: Seq<char>,
    pub peak_pq: Seq<char>,
    pub vibrance_pct: u32,
}

impl View for Readouts {
    type V = ReadoutsView;

    open spec fn view(&self) -> ReadoutsView {
        ReadoutsView {
            display_pq: self.display_pq@,
            sdr_pq: self.sdr_pq@,
            peak_pq: self.peak_pq@,
            vibrance_pct: self.vibrance_pct,
        }
    }
}

/// A later choice of the same setting replaces an earlier one: after both the
/// state is as after the later one alone.
pub proof fn law_later_choice_wins(
    s: CosmicHdrView,
    menu: Menu,
    a: usize,
    b: usize,
    daemon_alive: bool,
)
    ensures
        updated(
            updated(s, menu_message(menu, a), daemon_alive),
            menu_message(menu, b),
            daemon_alive,
        ) == updated(s, menu_message(menu, b), daemon_alive),
{
}

/// A later value of the same setting replaces an earlier one: after both the
/// state is as after the later one alone.
pub proof fn law_later_value_wins(
    s: CosmicHdrView,
    knob: Knob,
    v: u32,
    w: u32,
    daemon_alive: bool,
)
    ensures
        updated(
            updated(s, knob_message(knob, v), daemon_alive),
            knob_message(knob, w),
            daemon_alive,
        ) == updated(s, knob_message(knob, w), daemon_alive),
{
}

/// A switch that is set again is as if it had been set only the last time.
pub proof fn law_later_switch_wins(
    s: CosmicHdrView,
    switch: Switch,
    on: bool,
    then_on: bool,
    daemon_alive: bool,
)
    ensures
        updated(
            updated(s, switch_message(switch, on), daemon_alive),
            switch_message(switch, then_on),
            daemon_alive,
        ) == updated(s, switch_message(switch, then_on), daemon_alive),
{
}

/// The contents of lists are the contents of what they hold, in their order.
pub proof fn law_list_contents(b: Seq<Button>, r: Seq<Row>, s: Seq<Section>)
    ensures
        button_views(b).len() == b.len(),
        forall|i: int| 0 <= i < b.len() ==> #[trigger] button_views(b)[i] == b[i]@,
        row_views(r).len() == r.len(),
        forall|i: int| 0 <= i < r.len() ==> #[trigger] row_views(r)[i] == r[i]@,
        section_views(s).len() == s.len(),
        forall|i: int| 0 <= i < s.len() ==> #[trigger] section_views(s)[i] == s[i]@,
{
}

/// The contents of the parts of a page are their fields, each in its place.
pub proof fn law_page_contents(b: Button, r: Row, s: Section, p: Page, n: Readouts)
    ensures
        b@.label == b.label@,
        b@.style == b.style,
        b@.message == b.message,
        r@.title == r.title@,
        r@.description == r.description@,
        r@.control == r.control@,
        s@.heading == s.heading@,
        s@.rows == row_views(s.rows@),
        p.display is Some ==> p@.display == Some(p.display->0@),
        p.display is None ==> p@.display is None,
        p@.badge == p.badge@,
        p@.sections == section_views(p.sections@),
        p.status is Some ==> p@.status == Some(p.status->0@),
        p.status is None ==> p@.status is None,
        p@.buttons == button_views(p.buttons@),
        n@.display_pq == n.display_pq@,
        n@.sdr_pq == n.sdr_pq@,
        n@.peak_pq == n.peak_pq@,
        n@.vibrance_pct == n.vibrance_pct,
{
}

/// The contents of a control are its fields, each in its place.
pub proof fn law_control_contents(c: Control)
    ensures
        match c {
            Control::Toggle { switch, on } => c@ == (ControlView::Toggle { switch, on }),
            Control::Slider { knob, min, max, step, value, text, text_width } => c@ == (
            ControlView::Slider { knob, min, max, step, value, text: text@, text_width }),
            Control::Vibrance { low, high, stride, level, text, text_width } => c@ == (
            ControlView::Vibrance { low, high, stride, level, text: text@, text_width }),
            Control::Dropdown { menu, options, selected } => c@ == (ControlView::Dropdown {
                menu,
                options: strings(options@),
                selected,
            }),
            Control::Buttons { buttons } => c@ == (ControlView::Buttons {
                buttons: button_views(buttons@),
            }),
            Control::Note { text } => c@ == (ControlView::Note { text: text@ }),
            Control::Capabilities { hdr, colour } => c@ == (ControlView::Capabilities {
                hdr: strings(hdr@),
                colour: strings(colour@),
            }),
        },
{
}

/// A switch, a knob and a menu send the message of their own setting, with what
/// was set; a resolution goes out as its width and height.
pub proof fn law_messages(on: bool, v: u32, i: usize)
    ensures
        switch_message(Switch::HdrToggle, on) == Message::HdrToggle(on),
        switch_message(Switch::NvSmoothMotion, on) == Message::NvSmoothMotion(on),
        switch_message(Switch::NvReflex, on) == Message::NvReflex(on),
        switch_message(Switch::NvDldsr, on) == Message::NvDldsr(on),
        switch_message(Switch::OledPreset, on) == Message::OledPreset(on),
        knob_message(Knob::SdrNits, v) == Message::SdrNits(v),
        knob_message(Knob::PeakNits, v) == Message::PeakNits(v),
        knob_message(Knob::Gamut, v) == Message::Gamut(v),
        knob_message(Knob::Saturation, v) == Message::Saturation(v),
        knob_message(Knob::MidtoneGamma, v) == Message::MidtoneGamma(v),
        knob_message(Knob::OledDimTimeout, v) == Message::OledDimTimeout(v),
        knob_message(Knob::NvGsFps, v) == Message::NvGsFps(v),
        menu_message(Menu::GamutMode, i) == Message::GamutMode(i),
        menu_message(Menu::BitDepth, i) == Message::BitDepth(i),
        menu_message(Menu::NvUpscale, i) == Message::NvUpscale(i),
        menu_message(Menu::NvGsResolution, 0) == Message::NvGsResolution(1920, 1080),
        menu_message(Menu::NvGsResolution, 1) == Message::NvGsResolution(2560, 1440),
        menu_message(Menu::NvGsResolution, 2) == Message::NvGsResolution(3840, 2160),
        menu_message(Menu::NvGsResolution, 3) == Message::NvGsResolution(5120, 2880),
        menu_message(Menu::NvGsResolution, 4) == Message::NvGsResolution(7680, 4320),
{
}

} // verus!
