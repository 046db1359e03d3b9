//! Event dispatch: classifying a notification by its fields, composing the
//! per-branch display commands, and the shared sampler state a routine tick
//! updates under exclusive access.
use vstd::prelude::*;
use crate::cpu::{CPU, ColorConfig, TickSnapshot, spec_update_command};
use crate::clock::{Clock, ClockInstant, now_instant, spec_clock_command};

verus! {

/// Character-for-character string equality.
pub fn str_eq(a: &str, b: &str) -> (r: bool)
    ensures
        r == (a@ == b@),
{
    let n = a.unicode_len();
    let m = b.unicode_len();
    if n != m {
        return false;
    }
    let mut i: usize = 0;
    while i < n
        invariant
            i <= n,
            n == a@.len(),
            n == b@.len(),
            forall|j: int| 0 <= j < i ==> a@[j] == b@[j],
        decreases n - i,
    {
        if a.get_char(i) != b.get_char(i) {
            return false;
        }
        i += 1;
    }
    proof {
        assert(a@ =~= b@);
    }
    true
}

/// The three dispatch branches, plus one for a notification that matches
/// none of them.
#[derive(Clone, Copy, PartialEq, Eq, Structural, Debug)]
pub enum NotificationKind {
    Selection,
    Focus,
    Routine,
    Ignored,
}

/// Which branch a notification takes: a non-empty `SELECTED` field marks a
/// selection change, else the sender names the branch.
pub open spec fn spec_classify(sender: Seq<char>, selected: Seq<char>) -> NotificationKind {
    if selected.len() > 0 {
        NotificationKind::Selection
    } else if sender == "front_app_switched"@ {
        NotificationKind::Focus
    } else if sender == "routine"@ || sender == "forced"@ {
        NotificationKind::Routine
    } else {
        NotificationKind::Ignored
    }
}

pub fn classify_notification(sender: &str, selected: &str) -> (k: NotificationKind)
    ensures
        k == spec_classify(sender@, selected@),
{
    if selected.unicode_len() > 0 {
        NotificationKind::Selection
    } else if str_eq(sender, "front_app_switched") {
        NotificationKind::Focus
    } else if str_eq(sender, "routine") || str_eq(sender, "forced") {
        NotificationKind::Routine
    } else {
        NotificationKind::Ignored
    }
}

/// The animate-and-highlight command for a selection change: a selected
/// item collapses to width 0, a deselected one returns to its natural
/// size.
pub open spec fn spec_selection_command(name: Seq<char>, selected: bool) -> Seq<char> {
    "--animate tanh 20 --set "@ + name + " icon.highlight="@ + (if selected {
        "true"@
    } else {
        "false"@
    }) + " label.width="@ + (if selected {
        "0"@
    } else {
        "dynamic"@
    })
}

pub fn selection_command(name: &str, selected: bool) -> (r: String)
    ensures
        r@ == spec_selection_command(name@, selected),
{
    let mut s = String::from_str("--animate tanh 20 --set ");
    s.append(name);
    s.append(" icon.highlight=");
    if selected {
        s.append("true");
    } else {
        s.append("false");
    }
    s.append(" label.width=");
    if selected {
        s.append("0");
    } else {
        s.append("dynamic");
    }
    proof {
        assert(s@ =~= spec_selection_command(name@, selected));
    }
    s
}

/// The label-set command for a focus change, embedding the window info
/// verbatim.
pub open spec fn spec_focus_command(name: Seq<char>, info: Seq<char>) -> Seq<char> {
    "--set "@ + name + " label=\""@ + info + "\""@
}

pub fn focus_command(name: &str, info: &str) -> (r: String)
    ensures
        r@ == spec_focus_command(name@, info@),
{
    let mut s = String::from_str("--set ");
    s.append(name);
    s.append(" label=\"");
    s.append(info);
    s.append("\"");
    proof {
        assert(s@ =~= spec_focus_command(name@, info@));
    }
    s
}

/// The view of an optional outbound message.
pub open spec fn spec_opt_view(m: Option<String>) -> Option<Seq<char>> {
    match m {
        Some(s) => Some(s@),
        None => None,
    }
}

/// The routine-tick send policy: every non-empty command is sent, the CPU
/// command first, joined by a single space; when both are empty nothing is
/// sent.
pub open spec fn spec_compose(cpu_cmd: Seq<char>, clock_cmd: Seq<char>) -> Option<Seq<char>> {
    if cpu_cmd.len() > 0 && clock_cmd.len() > 0 {
        Some(cpu_cmd + " "@ + clock_cmd)
    } else if clock_cmd.len() > 0 {
        Some(clock_cmd)
    } else if cpu_cmd.len() > 0 {
        Some(cpu_cmd)
    } else {
        None
    }
}

/// The long-lived sampler state shared by all dispatch invocations.
///
/// A routine tick is a read-modify-write of the sampler, so at most one
/// update may be in progress at a time. Exclusivity is carried in the
/// types: every update goes through `&mut SharedMetricState`, which the
/// borrow rules make a unique reference, and each ensures clause relates
/// the state after the whole update to the state before it as one step.
/// The surrounding program keeps the single instance behind a blocking
/// lock and holds it across the whole tick.
pub struct SharedMetricState {
    pub cpu: CPU,
}

/// What the routine tick's CPU half contributes to the outbound message:
/// the freshly composed command when a snapshot was read, nothing when the
/// kernel read failed (a failed read skips the cycle rather than resend
/// stale data).
pub open spec fn spec_cpu_fragment(
    old_state: SharedMetricState,
    snapshot: Option<TickSnapshot>,
    top: Seq<char>,
    colors: ColorConfig,
) -> Seq<char> {
    match snapshot {
        Some(l) => spec_update_command(old_state.cpu, l, top, colors),
        None => Seq::<char>::empty(),
    }
}

impl SharedMetricState {
    /// A fresh state holding a fresh sampler.
    pub fn new() -> (s: SharedMetricState)
        ensures
            !s.cpu.has_prev_load,
            s.cpu.command@ == Seq::<char>::empty(),
    {
        SharedMetricState { cpu: CPU::new() }
    }

    /// One routine tick at a given clock instant: runs the sampler on the
    /// snapshot (when the kernel read produced one), renders the clock,
    /// and composes the outbound message under the send policy.
    pub fn routine_tick_at(
        &mut self,
        snapshot: Option<TickSnapshot>,
        top_process: &str,
        colors: &ColorConfig,
        now: &ClockInstant,
    ) -> (msg: Option<String>)
        requires
            now.wf(),
        ensures
            snapshot matches Some(l) ==> final(self).cpu.has_prev_load
                && final(self).cpu.prev_load == l
                && final(self).cpu.command@
                == spec_update_command(old(self).cpu, l, top_process@, *colors),
            snapshot is None ==> *final(self) == *old(self),
            spec_opt_view(msg) == spec_compose(
                spec_cpu_fragment(*old(self), snapshot, top_process@, *colors),
                spec_clock_command(*now),
            ),
    {
        let clock_cmd = Clock::render(now);
        let cpu_cmd: String = match snapshot {
            Some(l) => {
                self.cpu.update(l, top_process, colors);
                self.cpu.command.clone()
            },
            None => String::new(),
        };
        let cpu_len = cpu_cmd.as_str().unicode_len();
        let clock_len = clock_cmd.as_str().unicode_len();
        if cpu_len > 0 && clock_len > 0 {
            let mut s = cpu_cmd;
            s.append(" ");
            s.append(clock_cmd.as_str());
            Some(s)
        } else if clock_len > 0 {
            Some(clock_cmd)
        } else if cpu_len > 0 {
            Some(cpu_cmd)
        } else {
            None
        }
    }

    /// One routine tick at the current local time. The clock reading is
    /// the only part the instant decides; the sampler's transition is
    /// exact whatever instant came back.
    pub fn routine_tick(
        &mut self,
        snapshot: Option<TickSnapshot>,
        top_process: &str,
        colors: &ColorConfig,
    ) -> (msg: Option<String>)
        ensures
            snapshot matches Some(l) ==> final(self).cpu.has_prev_load
                && final(self).cpu.prev_load == l
                && final(self).cpu.command@
                == spec_update_command(old(self).cpu, l, top_process@, *colors),
            snapshot is None ==> *final(self) == *old(self),
            exists|i: ClockInstant|
                i.wf() && spec_opt_view(msg) == spec_compose(
                    spec_cpu_fragment(*old(self), snapshot, top_process@, *colors),
                    spec_clock_command(i),
                ),
    {
        let now = now_instant();
        let msg = self.routine_tick_at(snapshot, top_process, colors, &now);
        proof {
            assert(now.wf() && spec_opt_view(msg) == spec_compose(
                spec_cpu_fragment(*old(self), snapshot, top_process@, *colors),
                spec_clock_command(now),
            ));
        }
        msg
    }
}

/// The full decision for one delivered notification: from the four
/// notification fields and the externally gathered routine inputs to the
/// message to send, if any. Only a routine tick touches the shared state.
pub fn dispatch(
    state: &mut SharedMetricState,
    name: &str,
    sender: &str,
    info: &str,
    selected: &str,
    snapshot: Option<TickSnapshot>,
    top_process: &str,
    colors: &ColorConfig,
) -> (msg: Option<String>)
    ensures
        spec_classify(sender@, selected@) != NotificationKind::Routine
            ==> *final(state) == *old(state),
        spec_classify(sender@, selected@) == NotificationKind::Selection ==> spec_opt_view(msg)
            == Some(spec_selection_command(name@, selected@ == "true"@)),
        spec_classify(sender@, selected@) == NotificationKind::Focus ==> spec_opt_view(msg)
            == Some(spec_focus_command(name@, info@)),
        spec_classify(sender@, selected@) == NotificationKind::Ignored ==> msg is None,
        spec_classify(sender@, selected@) == NotificationKind::Routine ==> (snapshot matches Some(l)
            ==> final(state).cpu.has_prev_load && final(state).cpu.prev_load == l
                && final(state).cpu.command@
                == spec_update_command(old(state).cpu, l, top_process@, *colors)) && (
        snapshot is None ==> *final(state) == *old(state)) && (exists|i: ClockInstant|
            i.wf() && spec_opt_view(msg) == spec_compose(
                spec_cpu_fragment(*old(state), snapshot, top_process@, *colors),
                spec_clock_command(i),
            )),
{
    match classify_notification(sender, selected) {
        NotificationKind::Selection => {
            let sel = str_eq(selected, "true");
            Some(selection_command(name, sel))
        },
        NotificationKind::Focus => Some(focus_command(name, info)),
        NotificationKind::Routine => state.routine_tick(snapshot, top_process, colors),
        NotificationKind::Ignored => None,
    }
}

/// The usage line printed when the bootstrap argument is missing.
pub open spec fn spec_usage(program: Seq<char>) -> Seq<char> {
    "Usage: "@ + program + " <bootstrap name>"@
}

/// Reads the bootstrap identifier from the argument list: the argument
/// right after the program name. A missing argument yields the usage line
/// to print on standard error before exiting with a nonzero status.
pub fn parse_bootstrap(args: &Vec<String>) -> (r: Result<String, String>)
    requires
        args@.len() >= 1,
    ensures
        args@.len() >= 2 ==> (r matches Ok(b) && b@ == args@[1]@),
        args@.len() < 2 ==> (r matches Err(u) && u@ == spec_usage(args@[0]@)),
{
    if args.len() >= 2 {
        Ok(args[1].clone())
    } else {
        let mut s = String::from_str("Usage: ");
        s.append(args[0].as_str());
        s.append(" <bootstrap name>");
        proof {
            assert(s@ =~= spec_usage(args@[0]@));
        }
        Err(s)
    }
}

} // verus!
