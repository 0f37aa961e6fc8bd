use ptt_app::text::{languages, text, UiLanguage};
use ptt_app::update::{
    answer_line, error_message, manual_check_cooldown, may_check_again, Applied, Elapsed, Release,
    UpdateError, UpdateSession, UpdateState, MANUAL_CHECK_COOLDOWN_SECS,
};

fn release() -> Release {
    Release {
        tag: "v0.4.0".to_owned(),
        version: "0.4.0".to_owned(),
        html_url: "https://example.invalid/releases/v0.4.0".to_owned(),
        asset_name: "poe-trade-tracker-0.4.0-preview.zip".to_owned(),
        asset_url: "https://example.invalid/download.zip".to_owned(),
        asset_size: 40 * 1024 * 1024,
    }
}

fn installed(replaced: Vec<String>, left_behind: Vec<String>) -> Applied {
    Applied {
        install_dir: "C:/x".to_owned(),
        version: "0.4.0".to_owned(),
        replaced,
        left_behind,
    }
}

#[test]
fn every_failure_says_something_in_both_languages() {
    let errors = [
        UpdateError::Unreachable("dns".to_owned()),
        UpdateError::Rejected(403),
        UpdateError::Rejected(404),
        UpdateError::Rejected(500),
        UpdateError::MalformedRelease("expected value".to_owned()),
        UpdateError::NoPackage {
            tag: "v0.4.0".to_owned(),
        },
        UpdateError::TooLarge {
            limit_bytes: 96 * 1024 * 1024,
        },
        UpdateError::Storage {
            path: "C:/x".to_owned(),
            reason: "denied".to_owned(),
        },
        UpdateError::BadArchive("truncated".to_owned()),
        UpdateError::Mismatch(vec!["ptt-app.exe".to_owned()]),
        UpdateError::ReadOnlyInstall {
            directory: "C:/Program Files/x".to_owned(),
        },
        UpdateError::HalfApplied {
            reason: "access denied".to_owned(),
            already_new: vec!["LICENSE.md".to_owned()],
            program_restored: true,
        },
    ];
    for language in languages() {
        for (index, error) in errors.iter().enumerate() {
            let message = error_message(error, &text(language));
            assert!(
                !message.trim().is_empty(),
                "{language:?} has nothing to say about error {index}"
            );
        }
    }
}

#[test]
fn a_half_applied_update_names_the_files_that_are_already_new() {
    let error = UpdateError::HalfApplied {
        reason: "access denied".to_owned(),
        already_new: vec!["onnxruntime.dll".to_owned(), "LICENSE.md".to_owned()],
        program_restored: false,
    };
    for language in languages() {
        let message = error_message(&error, &text(language));
        assert!(
            message.contains("onnxruntime.dll") && message.contains("LICENSE.md"),
            "{language:?} hides which files are already new: {message}"
        );
    }
}

#[test]
fn every_step_has_a_sentence_including_the_one_before_the_first_answer() {
    let states = [
        UpdateState::Idle,
        UpdateState::Checking,
        UpdateState::UpToDate,
        UpdateState::Available(release()),
        UpdateState::Downloading(release()),
        UpdateState::Installing,
        UpdateState::Installed(installed(
            vec!["ptt-app.exe".to_owned()],
            vec!["ptt-app.exe.old".to_owned()],
        )),
        UpdateState::Failed(UpdateError::Rejected(403)),
    ];
    for language in languages() {
        for (index, state) in states.iter().enumerate() {
            assert!(
                !state.line(&text(language)).trim().is_empty(),
                "{language:?} draws a blank line for step {index}"
            );
        }
    }
}

#[test]
fn a_finished_install_stops_a_new_watch_and_nothing_else() {
    let done = UpdateState::Installed(installed(
        vec!["ptt-app.exe".to_owned(), "onnxruntime.dll".to_owned()],
        Vec::new(),
    ));
    assert!(done.blocks_a_new_watch());
    for (index, state) in [
        UpdateState::Idle,
        UpdateState::Checking,
        UpdateState::UpToDate,
        UpdateState::Available(release()),
        UpdateState::Downloading(release()),
        UpdateState::Installing,
        UpdateState::Failed(UpdateError::Unreachable("dns".to_owned())),
    ]
    .iter()
    .enumerate()
    {
        assert!(
            !state.blocks_a_new_watch(),
            "step {index} still runs a matched set of files, so watching is fine"
        );
    }
}

#[test]
fn the_new_version_is_still_named_after_it_is_installed() {
    let done = UpdateState::Installed(installed(vec!["ptt-app.exe".to_owned()], Vec::new()));
    assert_eq!(done.new_version_label().as_deref(), Some("0.4.0"));
    assert_eq!(
        UpdateState::Available(release()).new_version_label().as_deref(),
        Some("v0.4.0"),
        "before the install the release's own tag is the honest label"
    );
    assert_eq!(UpdateState::UpToDate.new_version_label(), None);
}

#[test]
fn a_check_in_flight_blocks_another_one() {
    for (index, state) in [
        UpdateState::Checking,
        UpdateState::Downloading(release()),
        UpdateState::Installing,
    ]
    .iter()
    .enumerate()
    {
        assert!(
            !may_check_again(state, None),
            "step {index} still lets another check start"
        );
    }
}

#[test]
fn an_installed_update_stops_offering_to_check_again() {
    let state = UpdateState::Installed(installed(Vec::new(), Vec::new()));
    assert!(!may_check_again(&state, Some(Elapsed::from_secs(3600))));
}

#[test]
fn the_button_waits_out_its_cooldown() {
    let idle = UpdateState::UpToDate;
    assert!(
        may_check_again(&idle, None),
        "the very first check must not be held back"
    );
    let cooldown = manual_check_cooldown();
    assert!(!may_check_again(
        &idle,
        Some(Elapsed::from_secs(cooldown.secs - 1))
    ));
    assert!(may_check_again(&idle, Some(cooldown)));
}

#[test]
fn a_failure_can_be_retried_once_the_cooldown_passes() {
    let failed = UpdateState::Failed(UpdateError::Unreachable("offline".to_owned()));
    assert!(!may_check_again(&failed, Some(Elapsed::from_secs(0))));
    assert!(may_check_again(&failed, Some(manual_check_cooldown())));
}

#[test]
fn the_cooldown_is_one_minute() {
    let cooldown = manual_check_cooldown();
    assert_eq!(cooldown, Elapsed { secs: 60, nanos: 0 });
    assert_eq!(MANUAL_CHECK_COOLDOWN_SECS, 60);
}

#[test]
fn a_fraction_of_a_second_short_of_the_cooldown_still_waits() {
    let idle = UpdateState::Idle;
    assert!(!may_check_again(&idle, Some(Elapsed { secs: 59, nanos: 999_999_999 })));
    assert!(may_check_again(&idle, Some(Elapsed { secs: 60, nanos: 1 })));
}

#[test]
fn each_failure_reads_as_its_own_sentence() {
    for language in languages() {
        let t = text(language);
        assert_eq!(
            error_message(&UpdateError::Unreachable("dns".to_owned()), &t),
            format!("{} (dns)", t.update_error_unreachable)
        );
        assert_eq!(error_message(&UpdateError::Rejected(403), &t), t.update_error_rate_limited);
        assert_eq!(error_message(&UpdateError::Rejected(404), &t), t.update_error_no_release);
        assert_eq!(
            error_message(&UpdateError::Rejected(500), &t),
            format!("{} (500)", t.update_error_rejected)
        );
        assert_eq!(
            error_message(&UpdateError::MalformedRelease("x".to_owned()), &t),
            t.update_error_malformed
        );
        assert_eq!(
            error_message(&UpdateError::NoPackage { tag: "v0.4.0".to_owned() }, &t),
            format!("{} (v0.4.0)", t.update_error_no_package)
        );
        assert_eq!(
            error_message(&UpdateError::TooLarge { limit_bytes: 1024 }, &t),
            t.update_error_too_large
        );
        assert_eq!(
            error_message(
                &UpdateError::Storage { path: "C:/x".to_owned(), reason: "denied".to_owned() },
                &t
            ),
            format!("{}: C:/x", t.update_error_storage)
        );
        assert_eq!(
            error_message(&UpdateError::BadArchive("truncated".to_owned()), &t),
            t.update_error_bad_archive
        );
        assert_eq!(
            error_message(&UpdateError::Mismatch(vec!["a".to_owned()]), &t),
            t.update_error_mismatch
        );
        assert_eq!(
            error_message(&UpdateError::ReadOnlyInstall { directory: "C:/p".to_owned() }, &t),
            format!("{}: C:/p", t.update_error_read_only)
        );
    }
}

#[test]
fn a_half_applied_update_says_whether_the_program_survived() {
    let t = text(UiLanguage::English);
    let nothing_new = UpdateError::HalfApplied {
        reason: "x".to_owned(),
        already_new: Vec::new(),
        program_restored: true,
    };
    assert_eq!(
        error_message(&nothing_new, &t),
        format!("{} — {}", t.update_error_half_applied, t.update_half_program_restored)
    );
    let two_new = UpdateError::HalfApplied {
        reason: "x".to_owned(),
        already_new: vec!["a.dll".to_owned(), "b.md".to_owned()],
        program_restored: false,
    };
    assert_eq!(
        error_message(&two_new, &t),
        format!(
            "{} — {} — {}: a.dll, b.md",
            t.update_error_half_applied, t.update_half_program_lost, t.update_half_already_new
        )
    );
}

#[test]
fn the_answer_to_a_check_is_announced() {
    let t = text(UiLanguage::English);
    assert_eq!(answer_line(&Ok(Some(release())), &t), format!("{} v0.4.0", t.update_badge));
    assert_eq!(answer_line(&Ok(None), &t), t.update_state_current);
    assert_eq!(
        answer_line(&Err(UpdateError::Rejected(404)), &t),
        t.update_error_no_release
    );
}

#[test]
fn the_steps_say_whether_they_are_busy_or_good_news() {
    assert!(UpdateState::Checking.is_busy());
    assert!(UpdateState::Installing.is_busy());
    assert!(!UpdateState::Idle.is_busy());
    assert!(UpdateState::Available(release()).offers_an_install());
    assert!(!UpdateState::UpToDate.offers_an_install());
    assert!(UpdateState::Failed(UpdateError::Rejected(500)).is_failure());
    assert!(!UpdateState::Checking.is_failure());
    assert!(UpdateState::Available(release()).is_good_news());
    assert!(UpdateState::Installed(installed(Vec::new(), Vec::new())).blocks_a_new_check());
    assert!(matches!(UpdateState::new(), UpdateState::Idle));
    assert!(matches!(UpdateState::default(), UpdateState::Idle));
}

#[test]
fn a_late_answer_from_a_retired_round_does_not_land() {
    let mut session = UpdateSession::new();
    let first = session.kick().expect("the first kick starts a round");
    assert_eq!(session.kick(), None, "only one automatic check per start");
    assert_eq!(session.check_now(None), None, "a check is already in flight");
    let second = session.begin_check();
    assert!(first != second);
    assert!(!session.finish_check(first, Ok(None)));
    assert!(matches!(session.state, UpdateState::Checking));
    assert!(session.finish_check(second, Ok(Some(release()))));
    assert!(matches!(session.state, UpdateState::Available(_)));
}

#[test]
fn an_install_runs_through_its_rounds() {
    let mut session = UpdateSession::new();
    assert!(session.start_install().is_none(), "nothing to install yet");
    let round = session.begin_check();
    assert!(session.finish_check(round, Ok(Some(release()))));
    let (install_round, to_fetch) = session.start_install().expect("a release is available");
    assert_eq!(to_fetch.tag, "v0.4.0");
    assert!(matches!(session.state, UpdateState::Downloading(_)));
    assert!(!session.package_staged(round), "the check's round is retired");
    assert!(session.package_staged(install_round));
    assert!(matches!(session.state, UpdateState::Installing));
    assert!(session.install_finished(install_round, installed(Vec::new(), Vec::new())));
    assert!(session.state.blocks_a_new_watch());
    assert_eq!(session.check_now(Some(Elapsed::from_secs(3600))), None);
}

#[test]
fn a_failed_round_lands_only_while_current() {
    let mut session = UpdateSession::new();
    let old = session.begin_check();
    let new = session.begin_check();
    assert!(!session.round_failed(old, UpdateError::Rejected(500)));
    assert!(matches!(session.state, UpdateState::Checking));
    assert!(session.round_failed(new, UpdateError::Rejected(500)));
    assert!(session.state.is_failure());
}
