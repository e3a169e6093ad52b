//! Applying, resetting and saving.

use cosmic_hdr::apply::{
    daemon_process_dir, direct_apply, do_reset, reset_command, save_game_command, service_active,
    setup_oled_dim, write_conf_and_apply, write_nvidia_conf, ApplyFlow, ApplyStage, ApplyStep,
    Outcome, BIN, PID_FILE,
};
use cosmic_hdr::conf::{conf_args, HdrConf, NvidiaConf};

fn good() -> Outcome {
    Outcome::Exited { success: true, status: "exit status: 0".to_string() }
}

fn bad() -> Outcome {
    Outcome::Exited { success: false, status: "exit status: 1".to_string() }
}

fn failed() -> Outcome {
    Outcome::Failed("No such file or directory (os error 2)".to_string())
}

fn settings() -> HdrConf {
    let mut c = HdrConf::default();
    c.oled_dim_min = 10;
    c
}

/// Runs an application to its end and gives its commands' flags and its end.
fn run(mut flow: ApplyFlow, ends: Vec<Outcome>) -> (Vec<String>, Result<u32, String>) {
    let mut flags = Vec::new();
    for end in ends {
        flags.push(flow.command()[1].clone());
        match flow.advance(end) {
            ApplyStep::Run(next) => flow = next,
            ApplyStep::Fail(e) => return (flags, Err(e)),
            ApplyStep::Finish(minutes) => return (flags, Ok(minutes)),
        }
    }
    panic!("the application did not end");
}

#[test]
fn fixed_paths() {
    assert_eq!(BIN, "/usr/local/bin/kms-hdr");
    assert_eq!(PID_FILE, "/run/kms-hdr.pid");
}

#[test]
fn process_files_name_a_process() {
    assert_eq!(daemon_process_dir("1234").as_deref(), Some("/proc/1234"));
    assert_eq!(daemon_process_dir("1234\n").as_deref(), Some("/proc/1234"));
    assert_eq!(daemon_process_dir(" +007 ").as_deref(), Some("/proc/7"));
    assert_eq!(daemon_process_dir(""), None);
    assert_eq!(daemon_process_dir("-1"), None);
    assert_eq!(daemon_process_dir("12 34"), None);
    assert_eq!(daemon_process_dir("4294967296"), None);
}

#[test]
fn answers_that_start_with_active_say_so() {
    assert!(service_active(b"active\n"));
    assert!(service_active(b"active"));
    assert!(!service_active(b"activating\n"));
    assert!(!service_active(b"inactive\n"));
    assert!(!service_active(b"activ"));
    assert!(!service_active(b""));
    assert!(!service_active(b"Active"));
}

#[test]
fn without_a_daemon_settings_are_applied_directly() {
    let flow = write_conf_and_apply(&settings(), false);
    assert_eq!(flow.stage, ApplyStage::Direct);
    assert_eq!(flow.oled_dim, 10);
    let mut want = vec![BIN.to_string(), "--save".to_string()];
    want.extend(conf_args(&settings()));
    assert_eq!(flow.command(), want);
    assert_eq!(run(flow, vec![good()]), (vec!["--save".to_string()], Ok(10)));
}

#[test]
fn through_the_daemon_settings_are_saved_and_reloaded() {
    let flow = write_conf_and_apply(&settings(), true);
    let mut want = vec![BIN.to_string(), "--save-only".to_string()];
    want.extend(conf_args(&settings()));
    assert_eq!(flow.command(), want);
    let next = match flow.advance(good()) {
        ApplyStep::Run(next) => next,
        other => panic!("{other:?}"),
    };
    assert_eq!(next.command(), [BIN, "--reload"]);
    assert!(matches!(next.advance(good()), ApplyStep::Finish(10)));
}

#[test]
fn a_daemon_that_died_is_passed_by() {
    let all = vec!["--save-only".to_string(), "--reload".to_string(), "--save".to_string()];
    let flow = write_conf_and_apply(&settings(), true);
    assert_eq!(run(flow, vec![good(), bad(), good()]), (all.clone(), Ok(10)));
    let flow = write_conf_and_apply(&settings(), true);
    let error = Err("kms-hdr exited exit status: 1".to_string());
    assert_eq!(run(flow, vec![good(), bad(), bad()]), (all, error));
}

#[test]
fn the_direct_command_after_a_died_daemon_carries_the_settings() {
    let flow = match write_conf_and_apply(&settings(), true).advance(good()) {
        ApplyStep::Run(next) => next,
        other => panic!("{other:?}"),
    };
    let flow = match flow.advance(bad()) {
        ApplyStep::Run(next) => next,
        other => panic!("{other:?}"),
    };
    assert_eq!(flow.command(), write_conf_and_apply(&settings(), false).command());
}

#[test]
fn every_stage_reports_its_own_failure() {
    let flow = write_conf_and_apply(&settings(), true);
    let (_, end) = run(flow, vec![bad()]);
    assert_eq!(end, Err("kms-hdr --save-only exited exit status: 1".to_string()));
    let flow = direct_apply(vec![], 0);
    let (_, end) = run(flow, vec![bad()]);
    assert_eq!(end, Err("kms-hdr exited exit status: 1".to_string()));
}

#[test]
fn a_command_that_cannot_run_ends_the_application() {
    let reason = Err("No such file or directory (os error 2)".to_string());
    assert_eq!(run(write_conf_and_apply(&settings(), true), vec![failed()]).1, reason);
    assert_eq!(run(write_conf_and_apply(&settings(), true), vec![good(), failed()]).1, reason);
    assert_eq!(run(direct_apply(vec![], 0), vec![failed()]).1, reason);
}

#[test]
fn direct_applications_pass_their_arguments_on() {
    let flow = direct_apply(vec!["--gamut".to_string(), "50".to_string()], 0);
    assert_eq!(flow.command(), [BIN, "--save", "--gamut", "50"]);
    assert!(matches!(flow.advance(good()), ApplyStep::Finish(0)));
}

#[test]
fn reset_reports_its_end() {
    assert_eq!(reset_command(), [BIN, "reset"]);
    assert_eq!(do_reset(good()), Ok(()));
    assert_eq!(do_reset(bad()), Err("kms-hdr reset exited exit status: 1".to_string()));
    assert_eq!(do_reset(failed()), Err("No such file or directory (os error 2)".to_string()));
}

#[test]
fn gaming_settings_are_saved_by_one_command() {
    let c = NvidiaConf::default();
    let want = [
        BIN, "--save-game", "SMOOTH_MOTION=1", "REFLEX=1", "VIBRANCE=0", "UPSCALE=fsr",
        "DLDSR=0", "GS_WIDTH=3840", "GS_HEIGHT=2160", "GS_FPS=120",
    ];
    assert_eq!(save_game_command(&c), want);
}

#[test]
fn vibrance_is_set_once_the_command_has_run() {
    let mut c = NvidiaConf::default();
    c.vibrance = -512;
    let saved = write_nvidia_conf(&c, good(), true);
    assert_eq!(saved.nvibrant.as_deref(), Some("-512"));
    assert_eq!(saved.result, Ok(()));
    let saved = write_nvidia_conf(&c, good(), false);
    assert_eq!(saved.nvibrant, None);
    assert_eq!(saved.result, Ok(()));
    let saved = write_nvidia_conf(&c, bad(), true);
    assert_eq!(saved.nvibrant.as_deref(), Some("-512"));
    assert_eq!(saved.result, Err("kms-hdr --save-game exited exit status: 1".to_string()));
    let saved = write_nvidia_conf(&c, failed(), true);
    assert_eq!(saved.nvibrant, None);
    assert_eq!(saved.result, Err("No such file or directory (os error 2)".to_string()));
}

#[test]
fn dimming_is_switched_off_at_zero_minutes() {
    let plan = setup_oled_dim("/home/ada", 0);
    assert_eq!(plan.svc_dir, "/home/ada/.config/systemd/user");
    assert_eq!(plan.svc_path, "/home/ada/.config/systemd/user/kms-hdr-dim.service");
    assert_eq!(plan.unit, None);
    assert_eq!(plan.commands, [["--user", "disable", "--now", "kms-hdr-dim.service"]]);
}

#[test]
fn dimming_is_set_up_by_a_unit() {
    let plan = setup_oled_dim("", 15);
    assert_eq!(plan.svc_path, "/.config/systemd/user/kms-hdr-dim.service");
    let secs = 900;
    let want = format!(
        "[Unit]\nDescription=kms-hdr OLED auto-dim (swayidle)\n\
         [Service]\nType=simple\nRestart=on-failure\n\
         ExecStart=swayidle -w timeout {secs} \"pkexec {BIN} --dim-to 50\" resume \"pkexec {BIN}\"\n\
         [Install]\nWantedBy=default.target\n"
    );
    assert_eq!(plan.unit, Some(want));
    assert_eq!(plan.commands.len(), 2);
    assert_eq!(plan.commands[0], ["--user", "daemon-reload"]);
    assert_eq!(plan.commands[1], ["--user", "enable", "--now", "kms-hdr-dim.service"]);
}

#[test]
fn the_longest_timeout_fits() {
    let plan = setup_oled_dim("/h", 71_582_788);
    assert!(plan.unit.unwrap().contains("timeout 4294967280 "));
}
