use lazytrees::process::{
    capture_git, git_failure, run_git, run_tmux, status_to_bool, tmux_io_error, words, Exit,
    IoFailure, Ran,
};

fn exit(success: bool, code: Option<i32>, status: &str) -> Exit {
    Exit {
        success,
        code,
        status: status.to_owned(),
        stdout: b" out \n".to_vec(),
        stderr: b" err \n".to_vec(),
    }
}

fn failure(not_found: bool) -> IoFailure {
    IoFailure {
        not_found,
        message: "no luck".to_owned(),
    }
}

#[test]
fn git_ends_in_success_or_words() {
    let args = words(&vec!["a", "b"]);
    assert_eq!(run_git(&args, Ran::Exited(exit(true, Some(0), ""))), Ok(()));
    assert_eq!(
        capture_git(&args, Ran::Exited(exit(true, Some(0), ""))),
        Ok("out".to_owned())
    );
    let told = run_git(&args, Ran::Exited(exit(false, Some(2), ""))).expect_err("error");
    assert_eq!(told.to_text(), "git a b failed: err");
    let told = capture_git(&args, Ran::Exited(exit(false, None, ""))).expect_err("error");
    assert_eq!(told.to_text(), "git a b failed: err");
    let told = capture_git(&args, Ran::Failed(failure(true))).expect_err("error");
    assert_eq!(told.to_text(), "no luck");
    assert_eq!(
        git_failure(&words(&vec![]), &b"\xff".to_vec()).to_text(),
        "git  failed: \u{FFFD}"
    );
}

#[test]
fn a_status_answers() {
    assert_eq!(status_to_bool(&exit(true, Some(0), ""), "x"), Ok(true));
    assert_eq!(status_to_bool(&exit(false, Some(1), ""), "x"), Ok(false));
    let told = status_to_bool(&exit(false, Some(128), "exit status: 128"), "git show-ref");
    assert_eq!(
        told.expect_err("error").to_text(),
        "git show-ref failed with status exit status: 128"
    );
    let told = status_to_bool(&exit(false, None, "signal: 9"), "git show-ref");
    assert_eq!(
        told.expect_err("error").to_text(),
        "git show-ref failed with status signal: 9"
    );
}

#[test]
fn tmux_ends_in_success_or_words() {
    assert_eq!(run_tmux(Ran::Exited(exit(true, Some(0), "")), "tmux x"), Ok(()));
    let told = run_tmux(Ran::Exited(exit(false, Some(1), "exit status: 1")), "tmux x");
    assert_eq!(
        told.expect_err("error").to_text(),
        "tmux x failed with status exit status: 1"
    );
    assert_eq!(
        tmux_io_error(failure(true)).to_text(),
        "tmux is required but was not found in PATH"
    );
    assert_eq!(tmux_io_error(failure(false)).to_text(), "no luck");
}
