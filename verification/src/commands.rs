//! Plans one batch of Core commands: which ones the presentation state
//! takes, what the shell must do for each in order, whether the surfaces
//! must be drawn again, which overlay to open afterwards and which commands
//! go on to the platform dispatcher.

use vstd::prelude::*;

use crate::contextual_surface::{apply_spec, model_wf, GtkPresentationState, PresentationModel};
use crate::chrome::profile_classes_spec;
use crate::presentation::{Command, WindowClass};

verus! {

/// Something the shell does at once for an accepted command. The index
/// names the command in the batch, whose payload the shell reads.
#[derive(Clone, Copy, Debug, PartialEq, Eq, Structural)]
pub enum ShellStep {
    ApplyWindowClass(WindowClass),
    ShowToast(usize),
    PresentAlert(usize),
    OpenExternalUrl(usize),
    PerformNativeBack(usize),
}

/// What a batch asks of the shell.
#[derive(Debug)]
pub struct CommandPlan {
    /// Per command, in order: whether the presentation state accepted it.
    pub accepted: Vec<bool>,
    /// The immediate steps, in command order.
    pub steps: Vec<ShellStep>,
    /// Whether the visible surfaces or the context bar must be drawn again.
    pub presentation_changed: bool,
    /// The last accepted overlay presentation, to open once the surfaces
    /// are drawn again.
    pub overlay_from: Option<usize>,
    /// The accepted commands the platform dispatcher handles, in order.
    pub platform: Vec<usize>,
}

/// A plan as sequences.
pub struct PlanView {
    pub accepted: Seq<bool>,
    pub steps: Seq<ShellStep>,
    pub presentation_changed: bool,
    pub overlay_from: Option<usize>,
    pub platform: Seq<usize>,
}

impl View for CommandPlan {
    type V = PlanView;

    open spec fn view(&self) -> PlanView {
        PlanView {
            accepted: self.accepted@,
            steps: self.steps@,
            presentation_changed: self.presentation_changed,
            overlay_from: self.overlay_from,
            platform: self.platform@,
        }
    }
}

/// What an accepted command at position `i` adds to a plan.
pub open spec fn plan_accepted<C>(p: PlanView, command: Command<C>, i: usize) -> PlanView {
    match command {
        Command::ReplaceSurface { .. } => PlanView { presentation_changed: true, ..p },
        Command::SetContextBar { .. } => PlanView { presentation_changed: true, ..p },
        Command::SetPresentationProfile { profile } => PlanView {
            steps: p.steps.push(ShellStep::ApplyWindowClass(profile.window_class)),
            presentation_changed: true,
            ..p
        },
        Command::PresentOverlay { .. } => PlanView { overlay_from: Some(i), ..p },
        Command::ShowToast => PlanView { steps: p.steps.push(ShellStep::ShowToast(i)), ..p },
        Command::PresentAlert => PlanView { steps: p.steps.push(ShellStep::PresentAlert(i)), ..p },
        Command::OpenExternalUrl => PlanView {
            steps: p.steps.push(ShellStep::OpenExternalUrl(i)),
            ..p
        },
        Command::PerformNativeBack => PlanView {
            steps: p.steps.push(ShellStep::PerformNativeBack(i)),
            ..p
        },
        _ => PlanView { platform: p.platform.push(i), ..p },
    }
}

/// The state and plan after the first `n` commands of a batch.
pub open spec fn plan_prefix<C>(m: PresentationModel<C>, commands: Seq<Command<C>>, n: nat) -> (
    PresentationModel<C>,
    PlanView,
)
    decreases n,
{
    if n == 0 {
        (
            m,
            PlanView {
                accepted: seq![],
                steps: seq![],
                presentation_changed: false,
                overlay_from: None,
                platform: seq![],
            },
        )
    } else {
        let (before, p) = plan_prefix(m, commands, (n - 1) as nat);
        let command = commands[n - 1];
        let (after, accepted) = apply_spec(before, command);
        let p = PlanView { accepted: p.accepted.push(accepted), ..p };
        (after, if accepted {
            plan_accepted(p, command, (n - 1) as usize)
        } else {
            p
        })
    }
}

/// The plan for a whole batch, and the state it leaves.
pub open spec fn plan_spec<C>(m: PresentationModel<C>, commands: Seq<Command<C>>) -> (
    PresentationModel<C>,
    PlanView,
) {
    plan_prefix(m, commands, commands.len())
}

/// The kind of a command, read before the state takes it.
enum Kind {
    Changes,
    Profile(WindowClass),
    Overlay,
    Toast,
    Alert,
    Url,
    Back,
    Platform,
}

fn kind_of<C>(command: &Command<C>) -> (k: Kind)
    ensures
        match *command {
            Command::ReplaceSurface { .. } => k == Kind::Changes,
            Command::SetContextBar { .. } => k == Kind::Changes,
            Command::SetPresentationProfile { profile } => k == Kind::Profile(
                profile.window_class,
            ),
            Command::PresentOverlay { .. } => k == Kind::Overlay,
            Command::ShowToast => k == Kind::Toast,
            Command::PresentAlert => k == Kind::Alert,
            Command::OpenExternalUrl => k == Kind::Url,
            Command::PerformNativeBack => k == Kind::Back,
            _ => k == Kind::Platform,
        },
{
    match command {
        Command::ReplaceSurface { .. } => Kind::Changes,
        Command::SetContextBar { .. } => Kind::Changes,
        Command::SetPresentationProfile { profile } => Kind::Profile(profile.window_class),
        Command::PresentOverlay { .. } => Kind::Overlay,
        Command::ShowToast => Kind::Toast,
        Command::PresentAlert => Kind::Alert,
        Command::OpenExternalUrl => Kind::Url,
        Command::PerformNativeBack => Kind::Back,
        _ => Kind::Platform,
    }
}

/// Run a batch of Core commands through the presentation state, in order,
/// and say what the shell must do about them.
pub fn plan_commands<C>(state: &mut GtkPresentationState<C>, commands: Vec<Command<C>>) -> (plan:
    CommandPlan)
    requires
        old(state).wf(),
    ensures
        final(state).wf(),
        (final(state)@, plan@) == plan_spec(old(state)@, commands@),
{
    let ghost all = commands@;
    let ghost start = state@;
    let n = commands.len();
    let mut rest = commands;
    let mut plan = CommandPlan {
        accepted: Vec::new(),
        steps: Vec::new(),
        presentation_changed: false,
        overlay_from: None,
        platform: Vec::new(),
    };
    let mut i: usize = 0;
    assert(rest@ =~= all.subrange(0, n as int));
    while i < n
        invariant
            n == all.len(),
            i <= n,
            rest@ == all.subrange(i as int, n as int),
            state.wf(),
            (state@, plan@) == plan_prefix(start, all, i as nat),
        decreases n - i,
    {
        let command = rest.remove(0);
        assert(command == all[i as int]);
        let kind = kind_of(&command);
        let accepted = state.apply(command);
        plan.accepted.push(accepted);
        if accepted {
            match kind {
                Kind::Changes => {
                    plan.presentation_changed = true;
                },
                Kind::Profile(class) => {
                    plan.steps.push(ShellStep::ApplyWindowClass(class));
                    plan.presentation_changed = true;
                },
                Kind::Overlay => {
                    plan.overlay_from = Some(i);
                },
                Kind::Toast => {
                    plan.steps.push(ShellStep::ShowToast(i));
                },
                Kind::Alert => {
                    plan.steps.push(ShellStep::PresentAlert(i));
                },
                Kind::Url => {
                    plan.steps.push(ShellStep::OpenExternalUrl(i));
                },
                Kind::Back => {
                    plan.steps.push(ShellStep::PerformNativeBack(i));
                },
                Kind::Platform => {
                    plan.platform.push(i);
                },
            }
        }
        i = i + 1;
        assert(rest@ =~= all.subrange(i as int, n as int));
        assert(plan@ == plan_prefix(start, all, i as nat).1);
    }
    plan
}

/// Whether a command redraws the surfaces when accepted.
pub open spec fn redraws<C>(command: Command<C>) -> bool {
    command is ReplaceSurface || command is SetContextBar || command is SetPresentationProfile
}

/// What holds of the plan for the first `n` commands.
pub open spec fn plan_facts<C>(commands: Seq<Command<C>>, p: PlanView, n: nat) -> bool {
    &&& p.accepted.len() == n
    &&& forall|k: int|
        0 <= k < p.platform.len() ==> #[trigger] p.platform[k] < n && p.accepted[p.platform[k] as int]
            && !(commands[p.platform[k] as int] is ReplaceSurface) && !(
        commands[p.platform[k] as int] is SetContextBar) && !(
        commands[p.platform[k] as int] is SetPresentationProfile) && !(
        commands[p.platform[k] as int] is PresentOverlay)
    &&& forall|k: int, l: int| 0 <= k < l < p.platform.len() ==> p.platform[k] < p.platform[l]
    &&& match p.overlay_from {
        Some(i) => {
            &&& i < n
            &&& p.accepted[i as int]
            &&& commands[i as int] is PresentOverlay
            &&& forall|j: int|
                i < j < n ==> !(#[trigger] p.accepted[j] && commands[j] is PresentOverlay)
        },
        None => forall|j: int| 0 <= j < n ==> !(#[trigger] p.accepted[j] && commands[j] is PresentOverlay),
    }
    &&& p.presentation_changed <==> exists|j: int|
        0 <= j < n && #[trigger] p.accepted[j] && redraws(commands[j])
}

proof fn lemma_plan_facts<C>(m: PresentationModel<C>, commands: Seq<Command<C>>, n: nat)
    requires
        n <= commands.len(),
        commands.len() <= usize::MAX,
    ensures
        plan_facts(commands, plan_prefix(m, commands, n).1, n),
    decreases n,
{
    if n > 0 {
        lemma_plan_facts(m, commands, (n - 1) as nat);
        let (before, p0) = plan_prefix(m, commands, (n - 1) as nat);
        let command = commands[n - 1];
        let (after, accepted) = apply_spec(before, command);
        let p1 = PlanView { accepted: p0.accepted.push(accepted), ..p0 };
        let p = plan_prefix(m, commands, n).1;
        assert(forall|j: int| 0 <= j < n - 1 ==> p.accepted[j] == p0.accepted[j]);
        if p.presentation_changed && !p0.presentation_changed {
            assert(p.accepted[n - 1] && redraws(commands[n - 1]));
        }
        if p0.presentation_changed {
            let j = choose|j: int| 0 <= j < n - 1 && #[trigger] p0.accepted[j] && redraws(commands[j]);
            assert(p.accepted[j]);
        }
        assert(p0.presentation_changed ==> p.presentation_changed);
        if exists|j: int| 0 <= j < n && #[trigger] p.accepted[j] && redraws(commands[j]) {
            let j = choose|j: int| 0 <= j < n && #[trigger] p.accepted[j] && redraws(commands[j]);
            if j < n - 1 {
                assert(p0.accepted[j]);
            }
        }
        assert(p.accepted.len() == n);
        if p.platform.len() > p0.platform.len() {
            assert(accepted && !(command is ReplaceSurface) && !(command is SetContextBar) && !(
            command is SetPresentationProfile) && !(command is PresentOverlay));
            assert(p.platform == p0.platform.push((n - 1) as usize));
            assert forall|k: int| 0 <= k < p.platform.len() - 1 implies #[trigger] p.platform[k]
                == p0.platform[k] by {}
            assert forall|k: int, l: int| 0 <= k < l < p.platform.len() implies p.platform[k]
                < p.platform[l] by {
                if l == p.platform.len() - 1 {
                    assert(p.platform[k] == p0.platform[k]);
                    assert(p0.platform[k] < n - 1);
                } else {
                    assert(p.platform[k] == p0.platform[k]);
                    assert(p.platform[l] == p0.platform[l]);
                }
            }
            assert forall|k: int| 0 <= k < p.platform.len() implies #[trigger] p.platform[k] < n
                && p.accepted[p.platform[k] as int] by {
                if k < p.platform.len() - 1 {
                    assert(p.platform[k] == p0.platform[k]);
                    assert(p0.accepted[p0.platform[k] as int]);
                }
            }
        } else {
            assert(p.platform == p0.platform);
            assert forall|k: int| 0 <= k < p.platform.len() implies #[trigger] p.platform[k] < n
                && p.accepted[p.platform[k] as int] by {
                assert(p0.accepted[p0.platform[k] as int]);
            }
        }
    }
}

/// The plan answers every command of the batch, and each command the
/// platform dispatcher receives was accepted, is not a presentation
/// command, and keeps its place in the batch.
pub proof fn law_plan_answers_every_command_in_order<C>(
    m: PresentationModel<C>,
    commands: Seq<Command<C>>,
)
    requires
        commands.len() <= usize::MAX,
    ensures
        plan_facts(commands, plan_spec(m, commands).1, commands.len()),
{
    lemma_plan_facts(m, commands, commands.len());
}

/// The window classes a list of steps applies, in order.
pub open spec fn window_class_steps(steps: Seq<ShellStep>) -> Seq<WindowClass>
    decreases steps.len(),
{
    if steps.len() == 0 {
        seq![]
    } else {
        let rest = window_class_steps(steps.drop_last());
        match steps.last() {
            ShellStep::ApplyWindowClass(class) => rest.push(class),
            _ => rest,
        }
    }
}

proof fn lemma_window_classes_in_prefix<C>(
    m: PresentationModel<C>,
    commands: Seq<Command<C>>,
    n: nat,
)
    requires
        n <= commands.len(),
    ensures
        window_class_steps(plan_prefix(m, commands, n).1.steps) == profile_classes_spec(
            commands.subrange(0, n as int),
        ),
    decreases n,
{
    if n == 0 {
        assert(commands.subrange(0, 0) =~= Seq::<Command<C>>::empty());
    } else {
        lemma_window_classes_in_prefix(m, commands, (n - 1) as nat);
        let (before, p0) = plan_prefix(m, commands, (n - 1) as nat);
        let command = commands[n - 1];
        let sub = commands.subrange(0, n as int);
        assert(sub.drop_last() =~= commands.subrange(0, n - 1));
        assert(sub.last() == command);
        let p = plan_prefix(m, commands, n).1;
        if p.steps.len() > p0.steps.len() {
            assert(p.steps.drop_last() =~= p0.steps);
        } else {
            assert(p.steps == p0.steps);
        }
    }
}

/// Every presentation profile in a batch applies its window class, in batch
/// order, whatever else the batch holds: the window-class steps of the plan
/// are exactly the classes of the batch's profiles.
pub proof fn law_every_profile_applies_its_window_class<C>(
    m: PresentationModel<C>,
    commands: Seq<Command<C>>,
)
    ensures
        window_class_steps(plan_spec(m, commands).1.steps) == profile_classes_spec(commands),
{
    lemma_window_classes_in_prefix(m, commands, commands.len());
    assert(commands.subrange(0, commands.len() as int) =~= commands);
}

} // verus!
