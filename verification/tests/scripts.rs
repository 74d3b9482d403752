use arctica::commands::{check_for_masterkey, create_setup_cd, extract_masterkey, install_sd_deps, packup};
use arctica::script::{Action, OnFailure, Outcome, Progress, Script};

fn ok() -> Outcome {
    Outcome { success: true, detail: String::new() }
}

fn failed(detail: &str) -> Outcome {
    Outcome { success: false, detail: detail.to_string() }
}

fn run_all(script: &Script, outcomes: Vec<Outcome>) -> Progress {
    let mut history: Vec<Outcome> = Vec::new();
    let mut outcomes = outcomes.into_iter();
    loop {
        match script.progress(&history) {
            Progress::Next(i) => {
                assert_eq!(i, history.len());
                history.push(outcomes.next().expect("an outcome for every step"));
            }
            done => return done,
        }
    }
}

#[test]
fn all_steps_succeed_gives_success_message() {
    let script = install_sd_deps();
    let n = script.steps.len();
    let result = run_all(&script, (0..n).map(|_| ok()).collect());
    assert_eq!(result, Progress::Done(Ok("SUCCESS in installing SD dependencies".to_string())));
}

#[test]
fn reported_failure_stops_with_prefix_and_detail() {
    let script = install_sd_deps();
    let result = run_all(&script, vec![ok(), ok(), failed("E: no network\n")]);
    assert_eq!(
        result,
        Progress::Done(Err("ERROR in installing SD dependencies = E: no network\n".to_string()))
    );
}

#[test]
fn ignored_failures_do_not_stop() {
    let script = packup("alice");
    // the two removals may fail; the tarball and the encryption succeed
    let result = run_all(&script, vec![ok(), failed("rm: no such file"), failed("x"), ok(), ok()]);
    assert_eq!(result, Progress::Done(Ok("SUCCESS in packup".to_string())));
}

#[test]
fn stop_failure_answers_fixed_text() {
    let script = check_for_masterkey();
    assert_eq!(run_all(&script, vec![ok(), failed("")]), Progress::Done(Err("key not found".to_string())));
    assert_eq!(run_all(&script, vec![ok(), ok()]), Progress::Done(Ok("masterkey found".to_string())));
}

#[test]
fn output_ending_answers_that_steps_detail() {
    let script = create_setup_cd("bob");
    let out = Outcome { success: false, detail: "Output { status: 1 }".to_string() };
    assert_eq!(
        run_all(&script, vec![ok(), out, ok()]),
        Progress::Done(Ok("Output { status: 1 }".to_string()))
    );
}

#[test]
fn progress_starts_at_first_step() {
    let script = extract_masterkey();
    assert_eq!(script.progress(&Vec::new()), Progress::Next(0));
    match &script.steps[0].action {
        Action::Run { program, args, stdout_to, show_output } => {
            assert_eq!(program, "cp");
            assert_eq!(args, &vec!["/mnt/ramdisk/setupCD/masterkey".to_string(), "/mnt/ramdisk".to_string()]);
            assert!(stdout_to.is_none());
            assert!(!show_output);
        }
        _ => panic!("expected a command"),
    }
    match &script.steps[0].on_failure {
        OnFailure::Report(p) => assert_eq!(p, "ERROR in extracting masterkey = "),
        _ => panic!("expected a reported failure"),
    }
}
