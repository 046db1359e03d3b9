use tickbar::{
    classify_notification, dispatch, focus_command, parse_bootstrap, selection_command,
    top_process_from_listing, Clock, ClockInstant, ColorConfig, NotificationKind,
    SharedMetricState, TickSnapshot,
};

fn colors() -> ColorConfig {
    ColorConfig {
        red: String::from("red"),
        orange: String::from("orange"),
        yellow: String::from("yellow"),
        label_color: String::from("label"),
    }
}

fn instant() -> ClockInstant {
    // weekday 6 counts from Monday, so this is a Sunday afternoon
    ClockInstant { hour: 14, minute: 5, weekday: 6, day: 12, month: 10 }
}

#[test]
fn selection_yields_highlight_and_collapsed_width() {
    let cmd = selection_command("space.1", true);
    assert!(cmd.contains("icon.highlight=true"));
    assert!(cmd.contains("label.width=0"));
    assert_eq!(
        cmd.as_str(),
        "--animate tanh 20 --set space.1 icon.highlight=true label.width=0"
    );
}

#[test]
fn deselection_restores_natural_width() {
    assert_eq!(
        selection_command("space.2", false).as_str(),
        "--animate tanh 20 --set space.2 icon.highlight=false label.width=dynamic"
    );
}

#[test]
fn focus_embeds_info_verbatim() {
    assert_eq!(
        focus_command("front_app", "Firefox").as_str(),
        "--set front_app label=\"Firefox\""
    );
}

#[test]
fn classification_branches() {
    assert_eq!(classify_notification("", "true"), NotificationKind::Selection);
    assert_eq!(classify_notification("routine", "false"), NotificationKind::Selection);
    assert_eq!(classify_notification("front_app_switched", ""), NotificationKind::Focus);
    assert_eq!(classify_notification("routine", ""), NotificationKind::Routine);
    assert_eq!(classify_notification("forced", ""), NotificationKind::Routine);
    assert_eq!(classify_notification("something_else", ""), NotificationKind::Ignored);
    assert_eq!(classify_notification("", ""), NotificationKind::Ignored);
}

#[test]
fn clock_render_is_deterministic_for_a_fixed_instant() {
    let i = instant();
    let a = Clock::render(&i);
    let b = Clock::render(&i);
    assert_eq!(a, b);
    assert_eq!(a.as_str(), "--set calendar icon=\"Sun 12. Oct\" label=\"14:05\"");
}

#[test]
fn clock_render_pads_and_abbreviates() {
    let i = ClockInstant { hour: 9, minute: 3, weekday: 0, day: 1, month: 2 };
    assert_eq!(
        Clock::render(&i).as_str(),
        "--set calendar icon=\"Mon 01. Feb\" label=\"09:03\""
    );
}

#[test]
fn clock_update_renders_the_current_time() {
    let mut clock = Clock::new();
    assert_eq!(clock.command.as_str(), "");
    clock.update();
    let cmd = clock.command.as_str();
    assert!(cmd.starts_with("--set calendar icon=\""));
    assert!(cmd.contains("label=\""));
    assert!(cmd.contains(':'));
}

#[test]
fn first_routine_tick_sends_clock_alone() {
    let mut state = SharedMetricState::new();
    let msg = state
        .routine_tick_at(
            Some(TickSnapshot { user: 100, system: 50, idle: 850 }),
            "Safari",
            &colors(),
            &instant(),
        )
        .expect("clock command is always composed");
    assert_eq!(msg.as_str(), "--set calendar icon=\"Sun 12. Oct\" label=\"14:05\"");
}

#[test]
fn second_routine_tick_concatenates_cpu_and_clock() {
    let mut state = SharedMetricState::new();
    state.routine_tick_at(
        Some(TickSnapshot { user: 100, system: 50, idle: 850 }),
        "Safari",
        &colors(),
        &instant(),
    );
    let msg = state
        .routine_tick_at(
            Some(TickSnapshot { user: 150, system: 70, idle: 880 }),
            "Safari",
            &colors(),
            &instant(),
        )
        .expect("both commands are composed");
    assert_eq!(
        msg.as_str(),
        "--push cpu.sys 0.20 --push cpu.user 0.50 --set cpu.percent label=70% \
         label.color=red --set cpu.top label=\"Safari\" \
         --set calendar icon=\"Sun 12. Oct\" label=\"14:05\""
    );
}

#[test]
fn failed_kernel_read_skips_the_cycle() {
    let mut state = SharedMetricState::new();
    state.routine_tick_at(
        Some(TickSnapshot { user: 1, system: 1, idle: 1 }),
        "p",
        &colors(),
        &instant(),
    );
    let msg = state
        .routine_tick_at(None, "p", &colors(), &instant())
        .expect("the clock still renders");
    // only the clock goes out; no stale CPU data is resent
    assert_eq!(msg.as_str(), "--set calendar icon=\"Sun 12. Oct\" label=\"14:05\"");
    // and the sampler state is untouched
    assert_eq!(state.cpu.prev_load, TickSnapshot { user: 1, system: 1, idle: 1 });
    assert!(state.cpu.has_prev_load);
}

#[test]
fn dispatch_routes_each_kind() {
    let mut state = SharedMetricState::new();
    let c = colors();
    let msg = dispatch(&mut state, "space.1", "", "", "true", None, "", &c);
    assert_eq!(
        msg.as_deref(),
        Some("--animate tanh 20 --set space.1 icon.highlight=true label.width=0")
    );
    let msg = dispatch(&mut state, "front_app", "front_app_switched", "Mail", "", None, "", &c);
    assert_eq!(msg.as_deref(), Some("--set front_app label=\"Mail\""));
    let msg = dispatch(&mut state, "cpu", "unknown_sender", "", "", None, "", &c);
    assert_eq!(msg, None);
    assert!(!state.cpu.has_prev_load);
    let msg = dispatch(
        &mut state,
        "cpu",
        "routine",
        "",
        "",
        Some(TickSnapshot { user: 5, system: 5, idle: 5 }),
        "top",
        &c,
    );
    assert!(msg.is_some());
    assert!(state.cpu.has_prev_load);
}

#[test]
fn top_process_strips_the_filter_prefix() {
    let listing = "  PID  %CPU COMM\n    1   0.1 launchd\n  321  42.0 com.apple.Safari\n    9   1.0 sshd\n";
    assert_eq!(
        top_process_from_listing(listing, "com.apple.").as_str(),
        "Safari"
    );
}

#[test]
fn top_process_without_prefix_is_returned_whole() {
    let listing = "HEADER\nrow\n  321  42.0 kernel_task\n";
    assert_eq!(
        top_process_from_listing(listing, "com.apple.").as_str(),
        "  321  42.0 kernel_task"
    );
}

#[test]
fn short_listing_yields_empty_name() {
    assert_eq!(top_process_from_listing("", "com.apple.").as_str(), "");
    assert_eq!(top_process_from_listing("one line", "com.apple.").as_str(), "");
    assert_eq!(top_process_from_listing("a\nb", "com.apple.").as_str(), "");
    // two newlines are enough for a third line to exist
    assert_eq!(top_process_from_listing("a\nb\nc", "x").as_str(), "c");
}

#[test]
fn bootstrap_argument_is_required() {
    let args = vec![String::from("prog")];
    let err = parse_bootstrap(&args).unwrap_err();
    assert_eq!(err.as_str(), "Usage: prog <bootstrap name>");

    let args = vec![String::from("prog"), String::from("git.felix.bar")];
    assert_eq!(parse_bootstrap(&args).unwrap().as_str(), "git.felix.bar");
}

#[test]
fn many_ticks_under_one_exclusive_state_stay_consistent() {
    // Sequential dispatches through one exclusively held state: every
    // composed message reflects exactly one interval, percentages stay in
    // range, and the stored snapshot always equals the last one handed in.
    let mut state = SharedMetricState::new();
    let c = colors();
    let mut user: u32 = 1000;
    let mut system: u32 = 500;
    let mut idle: u32 = 8500;
    for step in 0..20u32 {
        user += 10 + step;
        system += 5;
        idle += 85;
        let snap = TickSnapshot { user, system, idle };
        let msg = state
            .routine_tick_at(Some(snap), "proc", &c, &instant())
            .expect("clock always composes");
        assert_eq!(state.cpu.prev_load, snap);
        assert!(state.cpu.has_prev_load);
        if step > 0 {
            assert!(msg.starts_with("--push cpu.sys 0."));
            assert!(msg.contains("--set cpu.percent label="));
            let pct: u32 = msg
                .split("label=")
                .nth(1)
                .unwrap()
                .split('%')
                .next()
                .unwrap()
                .parse()
                .unwrap();
            assert!(pct <= 100);
        }
    }
}
