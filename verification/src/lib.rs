//! A verified core for a status-bar host-metrics sampler: CPU tick deltas,
//! utilization fractions and severity tiers, a local-time clock formatter,
//! and the event dispatch that composes display commands.
mod text;
mod cpu;
mod clock;
mod probe;
mod dispatch;

pub use cpu::{
    TickSnapshot, CPU, ColorTier, ColorConfig, spec_delta, spec_total_delta, spec_hundredths,
    spec_tier, spec_severity, spec_color_for, spec_cpu_command, spec_update_command,
    lemma_first_update_silent, lemma_tier_monotone, lemma_tier_scale_invariant,
    lemma_tier_breakpoints, lemma_fraction_sum, lemma_hundredths_bounded, delta, hundredths,
    classify, color_for, compose_cpu_command,
};
pub use text::{
    spec_digit, spec_two_digits, spec_percent_label, spec_fraction, digit_str, two_digits,
    percent_label, fraction_string,
};
pub use clock::{Clock, ClockInstant, spec_clock_command, spec_weekday_abbr, spec_month_abbr};
pub use probe::{
    top_process_from_listing, spec_top_process, spec_line, spec_after_first, spec_find_from,
};
pub use dispatch::{
    SharedMetricState, NotificationKind, str_eq, classify_notification, spec_classify,
    selection_command, spec_selection_command, focus_command, spec_focus_command, dispatch,
    spec_compose, spec_cpu_fragment, spec_opt_view, parse_bootstrap, spec_usage,
};
