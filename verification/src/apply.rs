//! Applying settings: which commands run, in which order, and what their ends
//! mean.
//!
//! Every command here is a list of arguments for `pkexec` or `systemctl`. The
//! caller runs it and hands back how it ended.

use vstd::prelude::*;

use crate::conf::{conf_args, hdr_args, joined, nvidia_args, nvidia_assignments, HdrConf,
    HdrConfView, NvidiaConf, NvidiaConfView};
use crate::number::{decimal, digit, i32_text, law_i32_round_trip, law_u32_round_trip,
    lemma_decimal_value, parse_u32, parsed_i32, parsed_u32, signed_decimal, u32_text};
use crate::text::{law_trim_around, strings, trim, trimmed, trimmed_end, white_space};

verus! {

/// The privileged helper.
pub const BIN: &'static str = "/usr/local/bin/kms-hdr";

/// The file that holds the daemon's process number.
pub const PID_FILE: &'static str = "/run/kms-hdr.pid";

/// How a command ended.
#[derive(Debug)]
pub enum Outcome {
    /// It could not be run, for the given reason.
    Failed(String),
    /// It ran and ended with the given status.
    Exited { success: bool, status: String },
}

/// The contents of a result without a value.
pub open spec fn result_text(r: Result<(), String>) -> Result<(), Seq<char>> {
    match r {
        Ok(()) => Ok(()),
        Err(e) => Err(e@),
    }
}

/// The directory that exists while the process numbered in `text` is alive.
pub open spec fn process_dir(text: Seq<char>) -> Option<Seq<char>> {
    match parsed_u32(trimmed(text)) {
        Some(pid) => Some("/proc/"@ + decimal(pid as nat)),
        None => None,
    }
}

/// The directory to look for: it exists while the daemon is alive whose
/// process file holds `pid_file`.
pub fn daemon_process_dir(pid_file: &str) -> (r: Option<String>)
    ensures
        match r {
            Some(dir) => process_dir(pid_file@) == Some(dir@),
            None => process_dir(pid_file@) is None,
        },
{
    match parse_u32(trim(pid_file)) {
        Some(pid) => Some(joined("/proc/", u32_text(pid).as_str())),
        None => None,
    }
}

/// An answer that says that the service is active: it begins with that word.
pub open spec fn says_active(answer: Seq<u8>) -> bool {
    seq![0x61u8, 0x63, 0x74, 0x69, 0x76, 0x65].is_prefix_of(answer)
}

/// Whether the service manager's answer says that the service is active.
pub fn service_active(answer: &[u8]) -> (r: bool)
    ensures
        r == seq![0x61u8, 0x63, 0x74, 0x69, 0x76, 0x65].is_prefix_of(answer@),
        r == says_active(answer@),
{
    let r: bool = answer.len() >= 6 && answer[0] == 0x61 && answer[1] == 0x63 && answer[2] == 0x74
        && answer[3] == 0x69 && answer[4] == 0x76 && answer[5] == 0x65;
    proof {
        let word = seq![0x61u8, 0x63, 0x74, 0x69, 0x76, 0x65];
        if r {
            assert(answer@.subrange(0, 6) == word);
        }
        if word.is_prefix_of(answer@) {
            assert(forall|i: int| 0 <= i < 6 ==> #[trigger] answer@.subrange(0, 6)[i] == answer@[i]);
            assert(answer@.subrange(0, 6) == word);
            assert(word[0] == answer@[0]);
            assert(word[1] == answer@[1]);
            assert(word[2] == answer@[2]);
            assert(word[3] == answer@[3]);
            assert(word[4] == answer@[4]);
            assert(word[5] == answer@[5]);
        }
    }
    r
}

/// Adds copies of `more` to the end of `list`.
fn push_all(list: &mut Vec<String>, more: &Vec<String>)
    ensures
        strings(final(list)@) == strings(old(list)@) + strings(more@),
{
    let n: usize = more.len();
    let mut i: usize = 0;
    let ghost before = strings(list@);
    assert(before + strings(more@).take(0) == before);
    while i < n
        invariant
            i <= n,
            n == more@.len(),
            strings(list@) == before + strings(more@).take(i as int),
        decreases n - i,
    {
        let ghost now = strings(list@);
        list.push(more[i].clone());
        assert(strings(list@) == now.push(more@[i as int]@));
        assert(strings(list@) == before + strings(more@).take(i + 1));
        i += 1;
    }
    assert(strings(more@).take(n as int) == strings(more@));
}

/// Where an application of the HDR settings stands.
#[derive(Debug, Clone, Copy, PartialEq, Eq, Structural)]
pub enum ApplyStage {
    /// The settings are being saved for the running daemon.
    SaveOnly,
    /// The daemon is being told to read them.
    Reload,
    /// The settings are being saved and applied without the daemon.
    Direct,
}

/// An application of the HDR settings in progress.
#[derive(Debug)]
pub struct ApplyFlow {
    pub stage: ApplyStage,
    pub args: Vec<String>,
    pub oled_dim: u32,
}

/// The contents of an application in progress.
pub struct ApplyFlowView {
    pub stage: ApplyStage,
    pub args: Seq<Seq<char>>,
    pub oled_dim: u32,
}

impl View for ApplyFlow {
    type V = ApplyFlowView;

    open spec fn view(&self) -> ApplyFlowView {
        ApplyFlowView { stage: self.stage, args: strings(self.args@), oled_dim: self.oled_dim }
    }
}

/// What to do once a command of an application has ended.
#[derive(Debug)]
pub enum ApplyStep {
    /// Run the next command.
    Run(ApplyFlow),
    /// Stop with an error.
    Fail(String),
    /// Set up dimming after the given minutes, and be done.
    Finish(u32),
}

/// The contents of a step.
pub enum ApplyStepView {
    Run(ApplyFlowView),
    Fail(Seq<char>),
    Finish(u32),
}

impl View for ApplyStep {
    type V = ApplyStepView;

    open spec fn view(&self) -> ApplyStepView {
        match self {
            ApplyStep::Run(f) => ApplyStepView::Run(f@),
            ApplyStep::Fail(e) => ApplyStepView::Fail(e@),
            ApplyStep::Finish(m) => ApplyStepView::Finish(*m),
        }
    }
}

/// How the settings start to be applied: through the daemon while it is
/// alive, directly otherwise.
pub open spec fn apply_start(c: HdrConfView, daemon_alive: bool) -> ApplyFlowView {
    ApplyFlowView {
        stage: if daemon_alive {
            ApplyStage::SaveOnly
        } else {
            ApplyStage::Direct
        },
        args: hdr_args(c),
        oled_dim: c.oled_dim_min,
    }
}

/// The command of a stage.
pub open spec fn apply_command(f: ApplyFlowView) -> Seq<Seq<char>> {
    match f.stage {
        ApplyStage::SaveOnly => seq![BIN@, "--save-only"@] + f.args,
        ApplyStage::Reload => seq![BIN@, "--reload"@],
        ApplyStage::Direct => seq![BIN@, "--save"@] + f.args,
    }
}

/// The step that follows the end of a stage's command. A daemon that refuses
/// to reload is taken for dead, and the settings are applied directly.
pub open spec fn apply_next(f: ApplyFlowView, end: Outcome) -> ApplyStepView {
    match end {
        Outcome::Failed(e) => ApplyStepView::Fail(e@),
        Outcome::Exited { success, status } => match f.stage {
            ApplyStage::SaveOnly => if success {
                ApplyStepView::Run(ApplyFlowView { stage: ApplyStage::Reload, ..f })
            } else {
                ApplyStepView::Fail("kms-hdr --save-only exited "@ + status@)
            },
            ApplyStage::Reload => if success {
                ApplyStepView::Finish(f.oled_dim)
            } else {
                ApplyStepView::Run(ApplyFlowView { stage: ApplyStage::Direct, ..f })
            },
            ApplyStage::Direct => if success {
                ApplyStepView::Finish(f.oled_dim)
            } else {
                ApplyStepView::Fail("kms-hdr exited "@ + status@)
            },
        },
    }
}

/// Starts to save and apply the HDR settings.
pub fn write_conf_and_apply(c: &HdrConf, daemon_alive: bool) -> (f: ApplyFlow)
    ensures
        f@ == apply_start(c@, daemon_alive),
{
    let args: Vec<String> = conf_args(c);
    if daemon_alive {
        ApplyFlow { stage: ApplyStage::SaveOnly, args, oled_dim: c.oled_dim_min }
    } else {
        direct_apply(args, c.oled_dim_min)
    }
}

/// Starts to save and apply settings without the daemon.
pub fn direct_apply(args: Vec<String>, oled_dim: u32) -> (f: ApplyFlow)
    ensures
        f@ == (ApplyFlowView { stage: ApplyStage::Direct, args: strings(args@), oled_dim }),
{
    ApplyFlow { stage: ApplyStage::Direct, args, oled_dim }
}

impl ApplyFlow {
    /// The command to run now.
    pub fn command(&self) -> (r: Vec<String>)
        ensures
            strings(r@) == apply_command(self@),
    {
        let flag: &str = match self.stage {
            ApplyStage::SaveOnly => "--save-only",
            ApplyStage::Reload => "--reload",
            ApplyStage::Direct => "--save",
        };
        let mut r: Vec<String> = vec![BIN.to_owned(), flag.to_owned()];
        assert(strings(r@) == seq![BIN@, flag@]);
        match self.stage {
            ApplyStage::Reload => {},
            _ => {
                push_all(&mut r, &self.args);
            },
        }
        r
    }

    /// Goes on after the command has ended.
    pub fn advance(self, end: Outcome) -> (r: ApplyStep)
        ensures
            r@ == apply_next(self@, end),
    {
        match end {
            Outcome::Failed(e) => ApplyStep::Fail(e),
            Outcome::Exited { success, status } => match self.stage {
                ApplyStage::SaveOnly => if success {
                    ApplyStep::Run(
                        ApplyFlow {
                            stage: ApplyStage::Reload,
                            args: self.args,
                            oled_dim: self.oled_dim,
                        },
                    )
                } else {
                    ApplyStep::Fail(joined("kms-hdr --save-only exited ", status.as_str()))
                },
                ApplyStage::Reload => if success {
                    ApplyStep::Finish(self.oled_dim)
                } else {
                    ApplyStep::Run(direct_apply(self.args, self.oled_dim))
                },
                ApplyStage::Direct => if success {
                    ApplyStep::Finish(self.oled_dim)
                } else {
                    ApplyStep::Fail(joined("kms-hdr exited ", status.as_str()))
                },
            },
        }
    }
}

/// The command that turns HDR off.
pub open spec fn reset_args() -> Seq<Seq<char>> {
    seq![BIN@, "reset"@]
}

/// The command that turns HDR off.
pub fn reset_command() -> (r: Vec<String>)
    ensures
        strings(r@) == reset_args(),
{
    let r: Vec<String> = vec![BIN.to_owned(), "reset".to_owned()];
    assert(strings(r@) == reset_args());
    r
}

/// What the end of a command means whose failure is reported behind `what`.
pub open spec fn command_result(what: Seq<char>, end: Outcome) -> Result<(), Seq<char>> {
    match end {
        Outcome::Failed(e) => Err(e@),
        Outcome::Exited { success, status } => if success {
            Ok(())
        } else {
            Err(what + status@)
        },
    }
}

/// Turns the end of a command into a result.
fn result_of(what: &str, end: Outcome) -> (r: Result<(), String>)
    ensures
        result_text(r) == command_result(what@, end),
{
    match end {
        Outcome::Failed(e) => Err(e),
        Outcome::Exited { success, status } => if success {
            Ok(())
        } else {
            Err(joined(what, status.as_str()))
        },
    }
}

/// The result of turning HDR off.
pub fn do_reset(end: Outcome) -> (r: Result<(), String>)
    ensures
        result_text(r) == command_result("kms-hdr reset exited "@, end),
        r is Ok <==> succeeded(end),
{
    result_of("kms-hdr reset exited ", end)
}

/// The command that saves the gaming settings.
pub open spec fn save_game_args(c: NvidiaConfView) -> Seq<Seq<char>> {
    seq![BIN@, "--save-game"@] + nvidia_assignments(c)
}

/// The command that saves the gaming settings.
pub fn save_game_command(c: &NvidiaConf) -> (r: Vec<String>)
    ensures
        strings(r@) == save_game_args(c@),
{
    let mut r: Vec<String> = vec![BIN.to_owned(), "--save-game".to_owned()];
    assert(strings(r@) == seq![BIN@, "--save-game"@]);
    let more: Vec<String> = nvidia_args(c);
    push_all(&mut r, &more);
    r
}

/// What follows the command that saves the gaming settings.
#[derive(Debug)]
pub struct GameSaved {
    /// The argument to run `nvibrant` with, where it is to be run.
    pub nvibrant: Option<String>,
    /// The result of saving.
    pub result: Result<(), String>,
}

/// Whether the vibrance goes to `nvibrant`: where it is installed, whether or
/// not the settings could be saved, once the command has run.
pub open spec fn nvibrant_arg(
    c: NvidiaConfView,
    end: Outcome,
    nvibrant_available: bool,
) -> Option<Seq<char>> {
    if nvibrant_available && end is Exited {
        Some(signed_decimal(c.vibrance as int))
    } else {
        None
    }
}

/// Goes on after the command that saves the gaming settings has ended.
pub fn write_nvidia_conf(c: &NvidiaConf, end: Outcome, nvibrant_available: bool) -> (r: GameSaved)
    ensures
        result_text(r.result) == command_result("kms-hdr --save-game exited "@, end),
        r.result is Ok <==> succeeded(end),
        match r.nvibrant {
            Some(arg) => nvibrant_arg(c@, end, nvibrant_available) == Some(arg@),
            None => nvibrant_arg(c@, end, nvibrant_available) is None,
        },
{
    let ran: bool = match &end {
        Outcome::Failed(_) => false,
        Outcome::Exited { .. } => true,
    };
    let nvibrant: Option<String> = if ran && nvibrant_available {
        Some(i32_text(c.vibrance))
    } else {
        None
    };
    GameSaved { nvibrant, result: result_of("kms-hdr --save-game exited ", end) }
}

/// How dimming of an idle display is set up.
///
/// With a unit to write, the commands run once it is written. Without one they
/// run first, and the unit is removed after them.
#[derive(Debug)]
pub struct OledDimPlan {
    /// The directory that has to exist.
    pub svc_dir: String,
    /// The unit's file.
    pub svc_path: String,
    /// The unit to write; none where dimming is switched off.
    pub unit: Option<String>,
    /// The arguments of `systemctl`, one list for each call.
    pub commands: Vec<Vec<String>>,
}

/// The contents of a dimming plan.
pub struct OledDimPlanView {
    pub svc_dir: Seq<char>,
    pub svc_path: Seq<char>,
    pub unit: Option<Seq<char>>,
    pub commands: Seq<Seq<Seq<char>>>,
}

impl View for OledDimPlan {
    type V = OledDimPlanView;

    open spec fn view(&self) -> OledDimPlanView {
        OledDimPlanView {
            svc_dir: self.svc_dir@,
            svc_path: self.svc_path@,
            unit: match self.unit {
                Some(u) => Some(u@),
                None => None,
            },
            commands: Seq::new(self.commands@.len(), |i: int| strings(self.commands@[i]@)),
        }
    }
}

/// The unit that dims the display after `secs` idle seconds.
pub open spec fn dim_unit(secs: nat) -> Seq<char> {
    "[Unit]\nDescription=kms-hdr OLED auto-dim (swayidle)\n[Service]\nType=simple\nRestart=on-failure\nExecStart=swayidle -w timeout "@
        + decimal(secs) + " \"pkexec "@ + BIN@ + " --dim-to 50\" resume \"pkexec "@ + BIN@
        + "\"\n[Install]\nWantedBy=default.target\n"@
}

/// How a display dims after `minutes` idle minutes; never after none.
pub open spec fn dim_plan(home: Seq<char>, minutes: u32) -> OledDimPlanView {
    let svc_dir = home + "/.config/systemd/user"@;
    let svc_path = svc_dir + "/kms-hdr-dim.service"@;
    if minutes == 0 {
        OledDimPlanView {
            svc_dir,
            svc_path,
            unit: None,
            commands: seq![seq!["--user"@, "disable"@, "--now"@, "kms-hdr-dim.service"@]],
        }
    } else {
        OledDimPlanView {
            svc_dir,
            svc_path,
            unit: Some(dim_unit((minutes * 60) as nat)),
            commands: seq![
                seq!["--user"@, "daemon-reload"@],
                seq!["--user"@, "enable"@, "--now"@, "kms-hdr-dim.service"@],
            ],
        }
    }
}

/// Writes the unit that dims the display after `secs` idle seconds.
fn dim_unit_text(secs: u32) -> (r: String)
    ensures
        r@ == dim_unit(secs as nat),
{
    let mut r: String =
        "[Unit]\nDescription=kms-hdr OLED auto-dim (swayidle)\n[Service]\nType=simple\nRestart=on-failure\nExecStart=swayidle -w timeout ".to_owned();
    r.append(u32_text(secs).as_str());
    r.append(" \"pkexec ");
    r.append(BIN);
    r.append(" --dim-to 50\" resume \"pkexec ");
    r.append(BIN);
    r.append("\"\n[Install]\nWantedBy=default.target\n");
    r
}

/// Plans how the display dims after `minutes` idle minutes, for a user whose
/// home directory is `home`. The timeout in seconds has to fit in 32 bits.
pub fn setup_oled_dim(home: &str, minutes: u32) -> (r: OledDimPlan)
    requires
        minutes * 60 <= u32::MAX,
    ensures
        r@ == dim_plan(home@, minutes),
{
    let svc_dir: String = joined(home, "/.config/systemd/user");
    let svc_path: String = joined(svc_dir.as_str(), "/kms-hdr-dim.service");
    if minutes == 0 {
        let off: Vec<String> = vec![
            "--user".to_owned(),
            "disable".to_owned(),
            "--now".to_owned(),
            "kms-hdr-dim.service".to_owned(),
        ];
        assert(strings(off@) == seq!["--user"@, "disable"@, "--now"@, "kms-hdr-dim.service"@]);
        let r: OledDimPlan = OledDimPlan { svc_dir, svc_path, unit: None, commands: vec![off] };
        assert(r@.commands == dim_plan(home@, minutes).commands);
        r
    } else {
        let unit: String = dim_unit_text(minutes * 60);
        let load: Vec<String> = vec!["--user".to_owned(), "daemon-reload".to_owned()];
        let on: Vec<String> = vec![
            "--user".to_owned(),
            "enable".to_owned(),
            "--now".to_owned(),
            "kms-hdr-dim.service".to_owned(),
        ];
        assert(strings(load@) == seq!["--user"@, "daemon-reload"@]);
        assert(strings(on@) == seq!["--user"@, "enable"@, "--now"@, "kms-hdr-dim.service"@]);
        let r: OledDimPlan = OledDimPlan {
            svc_dir,
            svc_path,
            unit: Some(unit),
            commands: vec![load, on],
        };
        assert(r@.commands == dim_plan(home@, minutes).commands);
        r
    }
}

/// What an application comes to: done, with the minutes for dimming, or an
/// error.
pub enum ApplyEnd {
    Done(u32),
    Error(Seq<char>),
}

/// What an application comes to when its commands end one after the other as
/// in `ends`; none while a command is still to run.
pub open spec fn apply_run(f: ApplyFlowView, ends: Seq<Outcome>) -> Option<ApplyEnd>
    decreases ends.len(),
{
    if ends.len() == 0 {
        None
    } else {
        match apply_next(f, ends[0]) {
            ApplyStepView::Run(g) => apply_run(g, ends.skip(1)),
            ApplyStepView::Fail(e) => Some(ApplyEnd::Error(e)),
            ApplyStepView::Finish(m) => Some(ApplyEnd::Done(m)),
        }
    }
}

/// The commands that an application runs when they end as in `ends`.
pub open spec fn apply_commands(f: ApplyFlowView, ends: Seq<Outcome>) -> Seq<Seq<Seq<char>>>
    decreases ends.len(),
{
    if ends.len() == 0 {
        seq![apply_command(f)]
    } else {
        match apply_next(f, ends[0]) {
            ApplyStepView::Run(g) => seq![apply_command(f)] + apply_commands(g, ends.skip(1)),
            _ => seq![apply_command(f)],
        }
    }
}

/// The number of commands that an application can still run.
pub open spec fn commands_left(stage: ApplyStage) -> nat {
    match stage {
        ApplyStage::SaveOnly => 3,
        ApplyStage::Reload => 2,
        ApplyStage::Direct => 1,
    }
}

/// An application ends after at most three commands.
pub proof fn law_apply_ends(f: ApplyFlowView, ends: Seq<Outcome>)
    requires
        ends.len() >= commands_left(f.stage),
    ensures
        apply_run(f, ends) is Some,
        apply_commands(f, ends).len() <= commands_left(f.stage),
    decreases commands_left(f.stage),
{
    if let ApplyStepView::Run(g) = apply_next(f, ends[0]) {
        law_apply_ends(g, ends.skip(1));
    }
}

/// An application that is done set up the dimming it was started with.
pub proof fn law_apply_dims(f: ApplyFlowView, ends: Seq<Outcome>)
    ensures
        match apply_run(f, ends) {
            Some(ApplyEnd::Done(m)) => m == f.oled_dim,
            _ => true,
        },
    decreases ends.len(),
{
    if ends.len() > 0 {
        if let ApplyStepView::Run(g) = apply_next(f, ends[0]) {
            law_apply_dims(g, ends.skip(1));
        }
    }
}

/// A command ended well.
pub open spec fn succeeded(end: Outcome) -> bool {
    match end {
        Outcome::Exited { success, .. } => success,
        _ => false,
    }
}

/// An application is done only where its last command ended well: the daemon
/// took the settings over, or they were applied directly.
pub proof fn law_apply_done_succeeded(f: ApplyFlowView, ends: Seq<Outcome>)
    requires
        apply_run(f, ends) matches Some(ApplyEnd::Done(_)),
    ensures
        apply_commands(f, ends).len() <= ends.len(),
        succeeded(ends[apply_commands(f, ends).len() - 1]),
        apply_commands(f, ends).last() == seq![BIN@, "--reload"@] || apply_commands(f, ends).last()
            == seq![BIN@, "--save"@] + f.args,
    decreases ends.len(),
{
    if let ApplyStepView::Run(g) = apply_next(f, ends[0]) {
        law_apply_done_succeeded(g, ends.skip(1));
        let rest = apply_commands(g, ends.skip(1));
        assert(apply_commands(f, ends) == seq![apply_command(f)] + rest);
        assert(apply_commands(f, ends).last() == rest.last());
        assert(ends.skip(1)[rest.len() - 1] == ends[rest.len() as int]);
    }
}

/// A daemon that dies between the check and the reload changes nothing: the
/// application goes on as it would have without a daemon.
pub proof fn law_dead_daemon_falls_through(
    c: HdrConfView,
    saved: Outcome,
    refused: Outcome,
    rest: Seq<Outcome>,
)
    requires
        succeeded(saved),
        refused is Exited,
        !succeeded(refused),
    ensures
        apply_run(apply_start(c, true), seq![saved, refused] + rest) == apply_run(
            apply_start(c, false),
            rest,
        ),
{
    let ends = seq![saved, refused] + rest;
    let f = apply_start(c, true);
    let g = ApplyFlowView { stage: ApplyStage::Reload, ..f };
    assert(apply_next(f, ends[0]) == ApplyStepView::Run(g));
    assert(ends.skip(1)[0] == refused);
    assert(apply_next(g, refused) == ApplyStepView::Run(apply_start(c, false)));
    assert(ends.skip(1).skip(1) == rest);
    assert(apply_run(g, ends.skip(1)) == apply_run(apply_start(c, false), rest));
}

/// While the daemon works, the settings go through it: they are saved for it
/// and it is told to reload, and nothing is applied directly.
pub proof fn law_fast_path(c: HdrConfView, saved: Outcome, reloaded: Outcome)
    requires
        succeeded(saved),
        succeeded(reloaded),
    ensures
        apply_run(apply_start(c, true), seq![saved, reloaded]) == Some(
            ApplyEnd::Done(c.oled_dim_min),
        ),
        apply_commands(apply_start(c, true), seq![saved, reloaded]) == seq![
            seq![BIN@, "--save-only"@] + hdr_args(c),
            seq![BIN@, "--reload"@],
        ],
{
    let ends = seq![saved, reloaded];
    let f = apply_start(c, true);
    let g = ApplyFlowView { stage: ApplyStage::Reload, ..f };
    assert(apply_next(f, ends[0]) == ApplyStepView::Run(g));
    assert(ends.skip(1)[0] == reloaded);
    assert(apply_run(g, ends.skip(1)) == Some(ApplyEnd::Done(c.oled_dim_min)));
    assert(apply_commands(g, ends.skip(1)) == seq![apply_command(g)]);
    assert(apply_commands(f, ends) == seq![apply_command(f)] + seq![apply_command(g)]);
}

/// A process file that holds a number on a line of its own names that process.
pub proof fn law_process_file(pid: u32)
    ensures
        process_dir(decimal(pid as nat)) == Some("/proc/"@ + decimal(pid as nat)),
        process_dir(decimal(pid as nat).push('\n')) == Some("/proc/"@ + decimal(pid as nat)),
{
    let digits = decimal(pid as nat);
    let line = digits.push('\n');
    law_u32_round_trip(pid);
    lemma_decimal_value(pid as nat);
    assert(digit(digits[0]));
    assert(digit(digits[digits.len() - 1]));
    assert(trimmed(digits) == digits);
    assert(line.drop_last() == digits);
    assert(trimmed_end(line) == trimmed_end(digits));
    assert(trimmed(line) == digits);
}

/// The service is active where the answer starts with the six letters, in
/// ASCII, whatever follows; a shorter answer never says so.
pub proof fn law_says_active(answer: Seq<u8>)
    ensures
        says_active(answer) <==> answer.len() >= 6 && answer[0] == 'a' as u8 && answer[1]
            == 'c' as u8 && answer[2] == 't' as u8 && answer[3] == 'i' as u8 && answer[4]
            == 'v' as u8 && answer[5] == 'e' as u8,
{
    let word = seq![0x61u8, 0x63, 0x74, 0x69, 0x76, 0x65];
    assert('a' as u8 == 0x61 && 'c' as u8 == 0x63 && 't' as u8 == 0x74 && 'i' as u8 == 0x69
        && 'v' as u8 == 0x76 && 'e' as u8 == 0x65);
    if answer.len() >= 6 {
        let part = answer.subrange(0, 6);
        assert(part[0] == answer[0] && part[1] == answer[1] && part[2] == answer[2] && part[3]
            == answer[3] && part[4] == answer[4] && part[5] == answer[5]);
        if part == word {
            assert(word[0] == answer[0] && word[1] == answer[1] && word[2] == answer[2] && word[3]
                == answer[3] && word[4] == answer[4] && word[5] == answer[5]);
        }
        if answer[0] == 0x61 && answer[1] == 0x63 && answer[2] == 0x74 && answer[3] == 0x69
            && answer[4] == 0x76 && answer[5] == 0x65 {
            assert(part == word);
        }
    }
}

/// A process file names a process by its number, with any white space around
/// it; a file that holds no number names none.
pub proof fn law_process_named(pre: Seq<char>, pid: u32, post: Seq<char>, text: Seq<char>)
    requires
        forall|i: int| 0 <= i < pre.len() ==> white_space(#[trigger] pre[i]),
        forall|i: int| 0 <= i < post.len() ==> white_space(#[trigger] post[i]),
    ensures
        process_dir(pre + decimal(pid as nat) + post) == Some("/proc/"@ + decimal(pid as nat)),
        process_dir(text) is Some <==> parsed_u32(trimmed(text)) is Some,
{
    let digits = decimal(pid as nat);
    law_u32_round_trip(pid);
    lemma_decimal_value(pid as nat);
    assert(digit(digits[0]));
    assert(digit(digits[digits.len() - 1]));
    law_trim_around(pre, digits, post);
}

/// A command that could not run, or ran and failed, is reported: the reason as
/// it is, or the status behind the command's name. Only success is not.
pub proof fn law_command_result(what: Seq<char>, end: Outcome)
    ensures
        command_result(what, end) is Ok <==> succeeded(end),
        match end {
            Outcome::Failed(e) => !succeeded(end) && command_result(what, end) == Err::<
                (),
                Seq<char>,
            >(e@),
            Outcome::Exited { success, status } => succeeded(end) == success && (!success
                ==> command_result(what, end) == Err::<(), Seq<char>>(what + status@)),
        },
{
}

/// Without a daemon one command is run, which carries the settings. Its success
/// is the end, with the dimming that was set; its failure is reported.
pub proof fn law_direct_path(c: HdrConfView, end: Outcome, rest: Seq<Outcome>)
    ensures
        apply_commands(apply_start(c, false), seq![end] + rest) == seq![
            seq![BIN@, "--save"@] + hdr_args(c),
        ],
        match end {
            Outcome::Failed(e) => apply_run(apply_start(c, false), seq![end] + rest) == Some(
                ApplyEnd::Error(e@),
            ),
            Outcome::Exited { success, status } => apply_run(
                apply_start(c, false),
                seq![end] + rest,
            ) == Some(
                if success {
                    ApplyEnd::Done(c.oled_dim_min)
                } else {
                    ApplyEnd::Error("kms-hdr exited "@ + status@)
                },
            ),
        },
{
    let ends = seq![end] + rest;
    assert(ends[0] == end);
}

/// With a daemon, settings that cannot be saved are reported, and neither the
/// daemon nor the display is touched.
pub proof fn law_save_refused(c: HdrConfView, end: Outcome, rest: Seq<Outcome>)
    requires
        !succeeded(end),
    ensures
        apply_commands(apply_start(c, true), seq![end] + rest) == seq![
            seq![BIN@, "--save-only"@] + hdr_args(c),
        ],
        match end {
            Outcome::Failed(e) => apply_run(apply_start(c, true), seq![end] + rest) == Some(
                ApplyEnd::Error(e@),
            ),
            Outcome::Exited { success, status } => apply_run(
                apply_start(c, true),
                seq![end] + rest,
            ) == Some(ApplyEnd::Error("kms-hdr --save-only exited "@ + status@)),
        },
{
    let ends = seq![end] + rest;
    assert(ends[0] == end);
}

/// A reload that cannot be run is reported, and nothing is applied directly.
pub proof fn law_reload_cannot_run(c: HdrConfView, saved: Outcome, e: String, rest: Seq<Outcome>)
    requires
        succeeded(saved),
    ensures
        apply_run(apply_start(c, true), seq![saved, Outcome::Failed(e)] + rest) == Some(
            ApplyEnd::Error(e@),
        ),
        apply_commands(apply_start(c, true), seq![saved, Outcome::Failed(e)] + rest).last() == seq![
            BIN@,
            "--reload"@,
        ],
{
    let ends = seq![saved, Outcome::Failed(e)] + rest;
    let f = apply_start(c, true);
    let g = ApplyFlowView { stage: ApplyStage::Reload, ..f };
    assert(ends[0] == saved);
    assert(apply_next(f, ends[0]) == ApplyStepView::Run(g));
    assert(ends.skip(1)[0] == Outcome::Failed(e));
    assert(apply_run(g, ends.skip(1)) == Some(ApplyEnd::Error(e@)));
    assert(apply_commands(g, ends.skip(1)) == seq![apply_command(g)]);
    assert(apply_commands(f, ends) == seq![apply_command(f)] + seq![apply_command(g)]);
}

/// A daemon that refuses to reload is followed by the same command that is run
/// without a daemon.
pub proof fn law_commands_after_refusal(
    c: HdrConfView,
    saved: Outcome,
    refused: Outcome,
    rest: Seq<Outcome>,
)
    requires
        succeeded(saved),
        refused is Exited,
        !succeeded(refused),
        rest.len() > 0,
    ensures
        apply_commands(apply_start(c, true), seq![saved, refused] + rest) == seq![
            seq![BIN@, "--save-only"@] + hdr_args(c),
            seq![BIN@, "--reload"@],
            seq![BIN@, "--save"@] + hdr_args(c),
        ],
{
    let ends = seq![saved, refused] + rest;
    let f = apply_start(c, true);
    let g = ApplyFlowView { stage: ApplyStage::Reload, ..f };
    let h = apply_start(c, false);
    assert(ends[0] == saved);
    assert(apply_next(f, ends[0]) == ApplyStepView::Run(g));
    assert(ends.skip(1)[0] == refused);
    assert(apply_next(g, refused) == ApplyStepView::Run(h));
    let last = ends.skip(1).skip(1);
    assert(last == rest);
    assert(apply_commands(h, last) == seq![apply_command(h)]);
    assert(apply_commands(g, ends.skip(1)) == seq![apply_command(g)] + seq![apply_command(h)]);
    assert(apply_commands(f, ends) == seq![apply_command(f)] + (seq![apply_command(g)] + seq![
        apply_command(h),
    ]));
}

/// The commands beside the application: one resets, the other hands over the
/// lines of the gaming settings.
pub proof fn law_other_commands(c: NvidiaConfView)
    ensures
        reset_args() == seq![BIN@, "reset"@],
        save_game_args(c).len() == 2 + nvidia_assignments(c).len(),
        save_game_args(c).take(2) == seq![BIN@, "--save-game"@],
        save_game_args(c).skip(2) == nvidia_assignments(c),
{
    assert(save_game_args(c).take(2) == seq![BIN@, "--save-game"@]);
    assert(save_game_args(c).skip(2) == nvidia_assignments(c));
}

/// The vibrance is handed to `nvibrant` where it is installed and the command
/// has run, however it ended, and reads back as the setting.
pub proof fn law_vibrance_handed_on(c: NvidiaConfView, end: Outcome, nvibrant_available: bool)
    ensures
        match nvibrant_arg(c, end, nvibrant_available) {
            Some(arg) => nvibrant_available && end is Exited && parsed_i32(arg) == Some(c.vibrance)
                && arg == signed_decimal(c.vibrance as int),
            None => !nvibrant_available || end is Failed,
        },
{
    law_i32_round_trip(c.vibrance);
}

/// Dimming after some minutes names sixty times as many seconds; after none
/// there is nothing to write, and the unit is disabled.
pub proof fn law_dimming(home: Seq<char>, minutes: u32)
    ensures
        ({
            let plan = dim_plan(home, minutes);
            &&& plan.svc_dir == home + "/.config/systemd/user"@
            &&& plan.svc_path == plan.svc_dir + "/kms-hdr-dim.service"@
            &&& plan.unit is None <==> minutes == 0
            &&& minutes == 0 ==> plan.commands == seq![
                seq!["--user"@, "disable"@, "--now"@, "kms-hdr-dim.service"@],
            ]
            &&& minutes > 0 ==> plan.commands == seq![
                seq!["--user"@, "daemon-reload"@],
                seq!["--user"@, "enable"@, "--now"@, "kms-hdr-dim.service"@],
            ]
            &&& minutes > 0 ==> plan.unit == Some(
                "[Unit]\nDescription=kms-hdr OLED auto-dim (swayidle)\n[Service]\nType=simple\nRestart=on-failure\nExecStart=swayidle -w timeout "@
                    + decimal((60 * minutes) as nat) + " \"pkexec "@ + BIN@
                    + " --dim-to 50\" resume \"pkexec "@ + BIN@
                    + "\"\n[Install]\nWantedBy=default.target\n"@,
            )
        }),
{
}

/// The command of each stage, whatever arguments it carries, and what comes
/// behind it.
pub proof fn law_stages(args: Seq<Seq<char>>, oled_dim: u32, end: Outcome)
    ensures
        ({
            let at = |stage: ApplyStage| ApplyFlowView { stage, args, oled_dim };
            &&& apply_command(at(ApplyStage::SaveOnly)) == seq![BIN@, "--save-only"@] + args
            &&& apply_command(at(ApplyStage::Reload)) == seq![BIN@, "--reload"@]
            &&& apply_command(at(ApplyStage::Direct)) == seq![BIN@, "--save"@] + args
            &&& succeeded(end) ==> apply_next(at(ApplyStage::SaveOnly), end) == ApplyStepView::Run(
                at(ApplyStage::Reload),
            )
            &&& succeeded(end) ==> apply_next(at(ApplyStage::Reload), end)
                == ApplyStepView::Finish(oled_dim)
            &&& succeeded(end) ==> apply_next(at(ApplyStage::Direct), end)
                == ApplyStepView::Finish(oled_dim)
            &&& end is Exited && !succeeded(end) ==> apply_next(at(ApplyStage::Reload), end)
                == ApplyStepView::Run(at(ApplyStage::Direct))
            &&& !succeeded(end) ==> apply_next(at(ApplyStage::SaveOnly), end) is Fail
            &&& !succeeded(end) ==> apply_next(at(ApplyStage::Direct), end) is Fail
        }),
{
}

/// The contents of an application, of a step and of a plan are their fields,
/// each in its place.
pub proof fn law_apply_contents(f: ApplyFlow, e: String, m: u32, plan: OledDimPlan)
    ensures
        f@.stage == f.stage,
        f@.args == strings(f.args@),
        f@.oled_dim == f.oled_dim,
        ApplyStep::Run(f)@ == ApplyStepView::Run(f@),
        ApplyStep::Fail(e)@ == ApplyStepView::Fail(e@),
        ApplyStep::Finish(m)@ == ApplyStepView::Finish(m),
        plan@.svc_dir == plan.svc_dir@,
        plan@.svc_path == plan.svc_path@,
        plan.unit is Some ==> plan@.unit == Some(plan.unit->0@),
        plan.unit is None ==> plan@.unit is None,
        plan@.commands.len() == plan.commands@.len(),
        forall|i: int|
            0 <= i < plan.commands@.len() ==> #[trigger] plan@.commands[i] == strings(
                plan.commands@[i]@,
            ),
        result_text(Ok(())) is Ok,
        result_text(Err(e)) == Err::<(), Seq<char>>(e@),
{
}

} // verus!
