use vstd::prelude::*;
use crate::errors::InstallError;
use crate::errors::InstallErrorV;
use crate::paths;
use crate::plan;
use crate::plan::InstallEnv;
use crate::plan::InstallEnvV;
use crate::plan::InstallOptions;
use crate::plan::shortcut_plan_view;
use crate::shortcut::ShortcutRequest;
use crate::shortcut::ShortcutRequestV;

verus! {

/// One outside operation the install flow asks the host to perform. The host
/// carries it out against the filesystem, the registry or the screen, and
/// answers with an [`InstallEvent`].
pub enum InstallAction {
    /// Enumerate the install tree and best-effort delete the download-zone
    /// marker of every `.dll`/`.exe` file (see [`crate::zone`]).
    StripZoneMarkers,
    /// Canonicalise this path; answer with the canonical form, or fail when
    /// the interpreter executable is missing.
    ResolveInterpreter(String),
    /// Create this directory and its parents if absent.
    EnsureStartMenuDir(String),
    /// Create one shortcut (see [`ShortcutRequest::render_script`]).
    CreateShortcut(ShortcutRequest),
    /// Read the user PATH value from the user environment key.
    ReadUserPath,
    /// Write this as the new user PATH value.
    WriteUserPath(String),
    /// Show the success dialog.
    ShowSuccess,
    /// Show the error dialog with the failure's message.
    ShowError(InstallError),
}

/// Mathematical image of an [`InstallAction`].
pub enum InstallActionV {
    StripZoneMarkers,
    ResolveInterpreter(Seq<char>),
    EnsureStartMenuDir(Seq<char>),
    CreateShortcut(ShortcutRequestV),
    ReadUserPath,
    WriteUserPath(Seq<char>),
    ShowSuccess,
    ShowError(InstallErrorV),
}

impl View for InstallAction {
    type V = InstallActionV;

    open spec fn view(&self) -> InstallActionV {
        match self {
            InstallAction::StripZoneMarkers => InstallActionV::StripZoneMarkers,
            InstallAction::ResolveInterpreter(p) => InstallActionV::ResolveInterpreter(p@),
            InstallAction::EnsureStartMenuDir(d) => InstallActionV::EnsureStartMenuDir(d@),
            InstallAction::CreateShortcut(r) => InstallActionV::CreateShortcut(r@),
            InstallAction::ReadUserPath => InstallActionV::ReadUserPath,
            InstallAction::WriteUserPath(v) => InstallActionV::WriteUserPath(v@),
            InstallAction::ShowSuccess => InstallActionV::ShowSuccess,
            InstallAction::ShowError(e) => InstallActionV::ShowError(e@),
        }
    }
}

/// The host's answer to the action in flight.
pub enum InstallEvent {
    /// The operation completed (best-effort operations always answer this).
    Completed,
    /// The canonical interpreter path.
    ResolvedInterpreter(String),
    /// The current user PATH value.
    ReadPathValue(String),
    /// The operation failed; the flow aborts with this error.
    Failed(InstallError),
}

/// Mathematical image of an [`InstallEvent`].
pub enum InstallEventV {
    Completed,
    ResolvedInterpreter(Seq<char>),
    ReadPathValue(Seq<char>),
    Failed(InstallErrorV),
}

impl View for InstallEvent {
    type V = InstallEventV;

    open spec fn view(&self) -> InstallEventV {
        match self {
            InstallEvent::Completed => InstallEventV::Completed,
            InstallEvent::ResolvedInterpreter(p) => InstallEventV::ResolvedInterpreter(p@),
            InstallEvent::ReadPathValue(v) => InstallEventV::ReadPathValue(v@),
            InstallEvent::Failed(e) => InstallEventV::Failed(e@),
        }
    }
}

/// Where the install flow stands: which action is in flight.
pub enum FlowState {
    /// The zone-marker strip is in flight.
    Stripping,
    /// The interpreter path is being canonicalised.
    Resolving,
    /// The start-menu folder is being created; the canonical interpreter path
    /// is kept for the shortcuts.
    MakingDir { interp: String },
    /// Shortcut `next - 1` of the plan is in flight.
    CreatingShortcuts { interp: String, next: usize },
    /// The user PATH value is being read.
    ReadingPath,
    /// The new user PATH value is being written.
    WritingPath,
    /// The flow has ended, in success or failure; nothing more is emitted.
    Done,
}

/// Mathematical image of a [`FlowState`].
pub enum FlowStateV {
    Stripping,
    Resolving,
    MakingDir { interp: Seq<char> },
    CreatingShortcuts { interp: Seq<char>, next: int },
    ReadingPath,
    WritingPath,
    Done,
}

impl View for FlowState {
    type V = FlowStateV;

    open spec fn view(&self) -> FlowStateV {
        match self {
            FlowState::Stripping => FlowStateV::Stripping,
            FlowState::Resolving => FlowStateV::Resolving,
            FlowState::MakingDir { interp } => FlowStateV::MakingDir { interp: interp@ },
            FlowState::CreatingShortcuts { interp, next } => FlowStateV::CreatingShortcuts {
                interp: interp@,
                next: *next as int,
            },
            FlowState::ReadingPath => FlowStateV::ReadingPath,
            FlowState::WritingPath => FlowStateV::WritingPath,
            FlowState::Done => FlowStateV::Done,
        }
    }
}

/// The view of an optional action.
pub open spec fn action_opt_view(r: Option<InstallAction>) -> Option<InstallActionV> {
    match r {
        Some(a) => Some(a@),
        None => None,
    }
}

/// After the start-menu folder exists: emit shortcut `k` of the plan if there
/// is one, otherwise move on to the PATH step or finish.
pub open spec fn advance_view(
    opts: InstallOptions,
    env: InstallEnvV,
    interp: Seq<char>,
    k: int,
) -> (FlowStateV, Option<InstallActionV>) {
    let plan = shortcut_plan_view(opts, env, interp);
    if 0 <= k < plan.len() {
        (
            FlowStateV::CreatingShortcuts { interp, next: k + 1 },
            Some(InstallActionV::CreateShortcut(plan[k])),
        )
    } else if opts.add_to_path {
        (FlowStateV::ReadingPath, Some(InstallActionV::ReadUserPath))
    } else {
        (FlowStateV::Done, Some(InstallActionV::ShowSuccess))
    }
}

/// The install flow's transition relation: from the current state and the
/// host's answer to the action in flight, the next state and the next action.
/// Any failure ends the flow with the error dialog; an answer that does not
/// fit the state changes nothing.
pub open spec fn step_view(
    opts: InstallOptions,
    env: InstallEnvV,
    s: FlowStateV,
    ev: InstallEventV,
) -> (FlowStateV, Option<InstallActionV>) {
    match ev {
        InstallEventV::Failed(e) => match s {
            FlowStateV::Done => (FlowStateV::Done, None),
            _ => (FlowStateV::Done, Some(InstallActionV::ShowError(e))),
        },
        InstallEventV::Completed => match s {
            FlowStateV::Stripping => (
                FlowStateV::Resolving,
                Some(
                    InstallActionV::ResolveInterpreter(
                        paths::interpreter_candidate_view(env.install_root),
                    ),
                ),
            ),
            FlowStateV::MakingDir { interp } => advance_view(opts, env, interp, 0),
            FlowStateV::CreatingShortcuts { interp, next } => advance_view(
                opts,
                env,
                interp,
                next,
            ),
            FlowStateV::WritingPath => (FlowStateV::Done, Some(InstallActionV::ShowSuccess)),
            _ => (s, None),
        },
        InstallEventV::ResolvedInterpreter(p) => match s {
            FlowStateV::Resolving => (
                FlowStateV::MakingDir { interp: p },
                Some(InstallActionV::EnsureStartMenuDir(paths::start_menu_dir_view(env.appdata))),
            ),
            _ => (s, None),
        },
        InstallEventV::ReadPathValue(v) => match s {
            FlowStateV::ReadingPath => (
                FlowStateV::WritingPath,
                Some(
                    InstallActionV::WriteUserPath(
                        paths::append_path_value_view(v, env.install_root),
                    ),
                ),
            ),
            _ => (s, None),
        },
    }
}

/// The install action sequence, driven as a state machine: the host performs
/// each returned action and feeds the outcome back through [`Self::step`].
pub struct InstallFlow {
    pub opts: InstallOptions,
    pub env: InstallEnv,
    pub state: FlowState,
}

impl InstallFlow {
    /// A fresh flow for the given options and host values.
    pub fn new(opts: InstallOptions, env: InstallEnv) -> (r: InstallFlow)
        ensures
            r.opts == opts,
            r.env@ == env@,
            r.state@ == FlowStateV::Stripping,
    {
        InstallFlow { opts, env, state: FlowState::Stripping }
    }

    /// The first action of every install: the best-effort zone-marker strip.
    pub fn start(&self) -> (r: InstallAction)
        ensures
            r@ == InstallActionV::StripZoneMarkers,
    {
        InstallAction::StripZoneMarkers
    }

    fn advance(&mut self, interp: String, k: usize) -> (r: Option<InstallAction>)
        ensures
            final(self).opts == old(self).opts,
            final(self).env == old(self).env,
            ({
                let (s2, a) = advance_view(old(self).opts, old(self).env@, interp@, k as int);
                &&& final(self).state@ == s2
                &&& action_opt_view(r) == a
            }),
    {
        let mut plan = plan::planned_shortcuts(&self.opts, &self.env, interp.as_str());
        if k < plan.len() {
            let req = plan.remove(k);
            proof {
                assert(req@ == shortcut_plan_view(self.opts, self.env@, interp@)[k as int]);
            }
            self.state = FlowState::CreatingShortcuts { interp, next: k + 1 };
            Some(InstallAction::CreateShortcut(req))
        } else if self.opts.add_to_path {
            self.state = FlowState::ReadingPath;
            Some(InstallAction::ReadUserPath)
        } else {
            self.state = FlowState::Done;
            Some(InstallAction::ShowSuccess)
        }
    }

    /// Feeds the host's answer to the action in flight into the flow and
    /// returns the next action, or nothing when the flow has ended.
    pub fn step(&mut self, ev: InstallEvent) -> (r: Option<InstallAction>)
        ensures
            final(self).opts == old(self).opts,
            final(self).env == old(self).env,
            ({
                let (s2, a) = step_view(old(self).opts, old(self).env@, old(self).state@, ev@);
                &&& final(self).state@ == s2
                &&& action_opt_view(r) == a
            }),
    {
        let mut st = FlowState::Done;
        core::mem::swap(&mut st, &mut self.state);
        match ev {
            InstallEvent::Failed(e) => match st {
                FlowState::Done => None,
                _ => Some(InstallAction::ShowError(e)),
            },
            InstallEvent::Completed => match st {
                FlowState::Stripping => {
                    let cand = paths::interpreter_candidate(self.env.install_root.as_str());
                    self.state = FlowState::Resolving;
                    Some(InstallAction::ResolveInterpreter(cand))
                },
                FlowState::MakingDir { interp } => self.advance(interp, 0),
                FlowState::CreatingShortcuts { interp, next } => self.advance(interp, next),
                FlowState::WritingPath => Some(InstallAction::ShowSuccess),
                other => {
                    self.state = other;
                    None
                },
            },
            InstallEvent::ResolvedInterpreter(p) => match st {
                FlowState::Resolving => {
                    let dir = paths::start_menu_dir(self.env.appdata.as_str());
                    self.state = FlowState::MakingDir { interp: p };
                    Some(InstallAction::EnsureStartMenuDir(dir))
                },
                other => {
                    self.state = other;
                    None
                },
            },
            InstallEvent::ReadPathValue(v) => match st {
                FlowState::ReadingPath => {
                    let w = paths::append_path_value(
                        v.as_str(),
                        self.env.install_root.as_str(),
                    );
                    self.state = FlowState::WritingPath;
                    Some(InstallAction::WriteUserPath(w))
                },
                other => {
                    self.state = other;
                    None
                },
            },
        }
    }
}

/// The actions of one optional action, as a sequence.
pub open spec fn opt_actions(a: Option<InstallActionV>) -> Seq<InstallActionV> {
    match a {
        Some(x) => seq![x],
        None => Seq::empty(),
    }
}

/// Every action the flow emits from state `s` when the host answers with the
/// events `evs`, in order.
pub open spec fn actions_from(
    opts: InstallOptions,
    env: InstallEnvV,
    s: FlowStateV,
    evs: Seq<InstallEventV>,
) -> Seq<InstallActionV>
    decreases evs.len(),
{
    if evs.len() == 0 {
        Seq::empty()
    } else {
        let (s2, a) = step_view(opts, env, s, evs.first());
        opt_actions(a) + actions_from(opts, env, s2, evs.drop_first())
    }
}

/// A finished flow is dead: whatever the host answers, nothing more is
/// emitted.
pub proof fn lemma_done_emits_nothing(
    opts: InstallOptions,
    env: InstallEnvV,
    evs: Seq<InstallEventV>,
)
    ensures
        actions_from(opts, env, FlowStateV::Done, evs).len() == 0,
    decreases evs.len(),
{
    if evs.len() > 0 {
        lemma_done_emits_nothing(opts, env, evs.drop_first());
    }
}

/// Law: the first failure aborts the whole sequence. A failing answer in any
/// live state produces exactly the error dialog, and every later answer
/// produces nothing.
pub proof fn lemma_fail_fast(
    opts: InstallOptions,
    env: InstallEnvV,
    s: FlowStateV,
    e: InstallErrorV,
    evs: Seq<InstallEventV>,
)
    requires
        s != FlowStateV::Done,
    ensures
        actions_from(opts, env, s, seq![InstallEventV::Failed(e)] + evs) =~= seq![
            InstallActionV::ShowError(e),
        ],
{
    let all = seq![InstallEventV::Failed(e)] + evs;
    assert(all.first() == InstallEventV::Failed(e));
    assert(all.drop_first() =~= evs);
    lemma_done_emits_nothing(opts, env, evs);
}

/// Law: if the interpreter executable is missing — the resolve step fails —
/// the install emits no shortcut creation and no PATH write at all: after the
/// zone-marker strip, the whole trace is the resolve request followed by the
/// error dialog.
pub proof fn lemma_interpreter_failure_fail_fast(
    opts: InstallOptions,
    env: InstallEnvV,
    e: InstallErrorV,
    evs: Seq<InstallEventV>,
)
    requires
        evs.len() >= 2,
        evs[0] == InstallEventV::Completed,
        evs[1] == InstallEventV::Failed(e),
    ensures
        ({
            let tr = actions_from(opts, env, FlowStateV::Stripping, evs);
            &&& tr =~= seq![
                InstallActionV::ResolveInterpreter(
                    paths::interpreter_candidate_view(env.install_root),
                ),
                InstallActionV::ShowError(e),
            ]
            &&& forall|r: ShortcutRequestV| !tr.contains(InstallActionV::CreateShortcut(r))
            &&& forall|v: Seq<char>| !tr.contains(InstallActionV::WriteUserPath(v))
        }),
{
    let tr = actions_from(opts, env, FlowStateV::Stripping, evs);
    let d1 = evs.drop_first();
    let d2 = d1.drop_first();
    assert(evs.first() == InstallEventV::Completed);
    assert(d1.first() == evs[1]);
    lemma_done_emits_nothing(opts, env, d2);
    assert(actions_from(opts, env, FlowStateV::Resolving, d1) =~= seq![
        InstallActionV::ShowError(e),
    ]);
    assert(tr =~= seq![
        InstallActionV::ResolveInterpreter(paths::interpreter_candidate_view(env.install_root)),
    ] + actions_from(opts, env, FlowStateV::Resolving, d1));
    assert(tr =~= seq![
        InstallActionV::ResolveInterpreter(paths::interpreter_candidate_view(env.install_root)),
        InstallActionV::ShowError(e),
    ]);
    assert forall|r: ShortcutRequestV| !tr.contains(InstallActionV::CreateShortcut(r)) by {
        if tr.contains(InstallActionV::CreateShortcut(r)) {
            let i = choose|i: int| 0 <= i < tr.len() && tr[i] == InstallActionV::CreateShortcut(r);
            assert(i == 0 || i == 1);
        }
    }
    assert forall|v: Seq<char>| !tr.contains(InstallActionV::WriteUserPath(v)) by {
        if tr.contains(InstallActionV::WriteUserPath(v)) {
            let i = choose|i: int| 0 <= i < tr.len() && tr[i] == InstallActionV::WriteUserPath(v);
            assert(i == 0 || i == 1);
        }
    }
}

/// The shortcut-creation actions for a plan, in the plan's order.
pub open spec fn create_actions(plan: Seq<ShortcutRequestV>) -> Seq<InstallActionV> {
    plan.map_values(|r: ShortcutRequestV| InstallActionV::CreateShortcut(r))
}

/// `n` completion answers in a row.
pub open spec fn completions(n: nat) -> Seq<InstallEventV> {
    Seq::new(n, |i: int| InstallEventV::Completed)
}

#[verifier::rlimit(50)]
proof fn lemma_run_shortcuts(
    opts: InstallOptions,
    env: InstallEnvV,
    interp: Seq<char>,
    k: int,
    tail: Seq<InstallEventV>,
)
    requires
        0 <= k <= shortcut_plan_view(opts, env, interp).len(),
    ensures
        ({
            let plan = shortcut_plan_view(opts, env, interp);
            let fin = advance_view(opts, env, interp, plan.len() as int);
            actions_from(
                opts,
                env,
                FlowStateV::CreatingShortcuts { interp, next: k },
                completions((plan.len() - k + 1) as nat) + tail,
            ) =~= create_actions(plan.subrange(k, plan.len() as int)) + opt_actions(fin.1)
                + actions_from(opts, env, fin.0, tail)
        }),
    decreases shortcut_plan_view(opts, env, interp).len() - k,
{
    let plan = shortcut_plan_view(opts, env, interp);
    let fin = advance_view(opts, env, interp, plan.len() as int);
    let s = FlowStateV::CreatingShortcuts { interp, next: k };
    let evs = completions((plan.len() - k + 1) as nat) + tail;
    let step = step_view(opts, env, s, InstallEventV::Completed);
    assert(evs.first() == InstallEventV::Completed);
    assert(actions_from(opts, env, s, evs) == opt_actions(step.1) + actions_from(
        opts,
        env,
        step.0,
        evs.drop_first(),
    ));
    if k == plan.len() {
        assert(step == fin);
        assert(evs.drop_first() =~= tail);
        assert(create_actions(plan.subrange(k, plan.len() as int)) =~= Seq::<
            InstallActionV,
        >::empty());
        assert(actions_from(opts, env, s, evs) =~= create_actions(
            plan.subrange(k, plan.len() as int),
        ) + opt_actions(fin.1) + actions_from(opts, env, fin.0, tail));
    } else {
        assert(step == (
            FlowStateV::CreatingShortcuts { interp, next: k + 1 },
            Some(InstallActionV::CreateShortcut(plan[k])),
        ));
        assert(evs.drop_first() =~= completions((plan.len() - (k + 1) + 1) as nat) + tail);
        lemma_run_shortcuts(opts, env, interp, k + 1, tail);
        assert(create_actions(plan.subrange(k, plan.len() as int)) =~= seq![
            InstallActionV::CreateShortcut(plan[k]),
        ] + create_actions(plan.subrange(k + 1, plan.len() as int)));
        assert(actions_from(opts, env, s, evs) =~= create_actions(
            plan.subrange(k, plan.len() as int),
        ) + opt_actions(fin.1) + actions_from(opts, env, fin.0, tail));
    }
}

/// Law: a fully successful install performs, after the zone-marker strip,
/// exactly these actions in this order: the interpreter resolution, the
/// start-menu folder creation, one shortcut creation per checked option in
/// the plan's fixed order, then — only when adding to PATH was checked — the
/// PATH read and the write of the appended value, and finally the success
/// dialog. In particular, exactly the checked options' shortcuts are created
/// and no others.
pub proof fn lemma_successful_install_trace(
    opts: InstallOptions,
    env: InstallEnvV,
    interp: Seq<char>,
    pathv: Seq<char>,
)
    ensures
        ({
            let plan = shortcut_plan_view(opts, env, interp);
            let evs = seq![InstallEventV::Completed, InstallEventV::ResolvedInterpreter(interp)]
                + completions((plan.len() + 1) as nat) + (if opts.add_to_path {
                seq![InstallEventV::ReadPathValue(pathv), InstallEventV::Completed]
            } else {
                Seq::<InstallEventV>::empty()
            });
            actions_from(opts, env, FlowStateV::Stripping, evs) =~= seq![
                InstallActionV::ResolveInterpreter(
                    paths::interpreter_candidate_view(env.install_root),
                ),
                InstallActionV::EnsureStartMenuDir(paths::start_menu_dir_view(env.appdata)),
            ] + create_actions(plan) + (if opts.add_to_path {
                seq![
                    InstallActionV::ReadUserPath,
                    InstallActionV::WriteUserPath(
                        paths::append_path_value_view(pathv, env.install_root),
                    ),
                    InstallActionV::ShowSuccess,
                ]
            } else {
                seq![InstallActionV::ShowSuccess]
            })
        }),
{
    let plan = shortcut_plan_view(opts, env, interp);
    let fin = advance_view(opts, env, interp, plan.len() as int);
    let tail = (if opts.add_to_path {
        seq![InstallEventV::ReadPathValue(pathv), InstallEventV::Completed]
    } else {
        Seq::<InstallEventV>::empty()
    });
    let evs = seq![InstallEventV::Completed, InstallEventV::ResolvedInterpreter(interp)]
        + completions((plan.len() + 1) as nat) + tail;
    let d1 = evs.drop_first();
    let d2 = d1.drop_first();
    assert(evs.first() == InstallEventV::Completed);
    assert(d1.first() == InstallEventV::ResolvedInterpreter(interp));
    let cevs = completions((plan.len() - 0 + 1) as nat) + tail;
    assert(d2 =~= cevs);

    // From the freshly made start-menu folder the flow behaves as at shortcut
    // index zero: both react to a completion through the same advance step.
    let adv = advance_view(opts, env, interp, 0);
    assert(step_view(opts, env, FlowStateV::MakingDir { interp }, InstallEventV::Completed)
        == adv);
    assert(step_view(
        opts,
        env,
        FlowStateV::CreatingShortcuts { interp, next: 0 },
        InstallEventV::Completed,
    ) == adv);
    assert(cevs.first() == InstallEventV::Completed);
    assert(actions_from(opts, env, FlowStateV::MakingDir { interp }, cevs) == opt_actions(adv.1)
        + actions_from(opts, env, adv.0, cevs.drop_first()));
    assert(actions_from(opts, env, FlowStateV::CreatingShortcuts { interp, next: 0 }, cevs)
        == opt_actions(adv.1) + actions_from(opts, env, adv.0, cevs.drop_first()));
    lemma_run_shortcuts(opts, env, interp, 0, tail);
    assert(plan.subrange(0, plan.len() as int) =~= plan);
    assert(actions_from(opts, env, FlowStateV::MakingDir { interp }, d2) =~= create_actions(plan)
        + opt_actions(fin.1) + actions_from(opts, env, fin.0, tail));

    // Unfold the two leading steps of the flow.
    assert(step_view(opts, env, FlowStateV::Stripping, InstallEventV::Completed) == (
        FlowStateV::Resolving,
        Some(
            InstallActionV::ResolveInterpreter(
                paths::interpreter_candidate_view(env.install_root),
            ),
        ),
    ));
    assert(actions_from(opts, env, FlowStateV::Resolving, d1) =~= seq![
        InstallActionV::EnsureStartMenuDir(paths::start_menu_dir_view(env.appdata)),
    ] + actions_from(opts, env, FlowStateV::MakingDir { interp }, d2));
    assert(actions_from(opts, env, FlowStateV::Stripping, evs) =~= seq![
        InstallActionV::ResolveInterpreter(paths::interpreter_candidate_view(env.install_root)),
    ] + actions_from(opts, env, FlowStateV::Resolving, d1));

    if opts.add_to_path {
        assert(fin.0 == FlowStateV::ReadingPath);
        assert(fin.1 == Some(InstallActionV::ReadUserPath));
        let t1 = tail.drop_first();
        assert(tail.first() == InstallEventV::ReadPathValue(pathv));
        assert(t1.first() == InstallEventV::Completed);
        assert(t1.drop_first() =~= Seq::<InstallEventV>::empty());
        assert(actions_from(opts, env, FlowStateV::Done, t1.drop_first()).len() == 0);
        assert(actions_from(opts, env, FlowStateV::WritingPath, t1) =~= seq![
            InstallActionV::ShowSuccess,
        ]);
        assert(actions_from(opts, env, FlowStateV::ReadingPath, tail) =~= seq![
            InstallActionV::WriteUserPath(paths::append_path_value_view(pathv, env.install_root)),
        ] + actions_from(opts, env, FlowStateV::WritingPath, t1));
        assert(actions_from(opts, env, FlowStateV::Stripping, evs) =~= seq![
            InstallActionV::ResolveInterpreter(
                paths::interpreter_candidate_view(env.install_root),
            ),
            InstallActionV::EnsureStartMenuDir(paths::start_menu_dir_view(env.appdata)),
        ] + create_actions(plan) + seq![
            InstallActionV::ReadUserPath,
            InstallActionV::WriteUserPath(paths::append_path_value_view(pathv, env.install_root)),
            InstallActionV::ShowSuccess,
        ]);
    } else {
        assert(fin.0 == FlowStateV::Done);
        assert(fin.1 == Some(InstallActionV::ShowSuccess));
        assert(actions_from(opts, env, FlowStateV::Done, tail).len() == 0);
        assert(actions_from(opts, env, FlowStateV::Stripping, evs) =~= seq![
            InstallActionV::ResolveInterpreter(
                paths::interpreter_candidate_view(env.install_root),
            ),
            InstallActionV::EnsureStartMenuDir(paths::start_menu_dir_view(env.appdata)),
        ] + create_actions(plan) + seq![InstallActionV::ShowSuccess]);
    }
}

/// Law: every shortcut the flow asks the host to create is one of the plan's
/// shortcuts for the checked options and the resolved interpreter.
pub proof fn lemma_emitted_shortcut_in_plan(
    opts: InstallOptions,
    env: InstallEnvV,
    s: FlowStateV,
    ev: InstallEventV,
    r: ShortcutRequestV,
)
    requires
        opt_actions(step_view(opts, env, s, ev).1).contains(InstallActionV::CreateShortcut(r)),
    ensures
        match s {
            FlowStateV::MakingDir { interp } => shortcut_plan_view(opts, env, interp).contains(r),
            FlowStateV::CreatingShortcuts { interp, next } => shortcut_plan_view(
                opts,
                env,
                interp,
            ).contains(r),
            _ => false,
        },
{
    match s {
        FlowStateV::MakingDir { interp } => {
            if ev == InstallEventV::Completed {
                let plan = shortcut_plan_view(opts, env, interp);
                if 0 <= 0 < plan.len() {
                    assert(plan[0] == r);
                }
            }
        },
        FlowStateV::CreatingShortcuts { interp, next } => {
            if ev == InstallEventV::Completed {
                let plan = shortcut_plan_view(opts, env, interp);
                if 0 <= next < plan.len() {
                    assert(plan[next] == r);
                }
            }
        },
        _ => {},
    }
}

} // verus!
