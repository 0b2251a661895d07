//! The lifecycle controller: a pure transition function from lifecycle
//! events to the ordered host actions they require, together with a model of
//! how the host carries those actions out. The host runtime (which owns the
//! real windows, the tray icon and the process) performs each action in
//! order and feeds the next event back in.

use vstd::prelude::*;
use crate::registry::{spec_window_name, LogEvent, WindowId, WindowRegistry};

verus! {

/// The id of a tray menu item; `Other` stands for any id outside the fixed
/// menu, which the controller ignores.
#[derive(Clone, Copy, Debug, PartialEq, Eq, Structural)]
pub enum TrayMenuId {
    Show,
    Hide,
    Quit,
    Other,
}

/// An interaction with the tray icon, as the host reports it.
#[derive(Clone, Copy, Debug, PartialEq, Eq, Structural)]
pub enum SystemTrayEvent {
    LeftClick,
    MenuItemClick { id: TrayMenuId },
    Other,
}

/// A lifecycle event: a host-runtime-originated occurrence, not directly
/// requested by a bridge caller.
#[derive(Clone, Copy, Debug, PartialEq, Eq, Structural)]
pub enum LifecycleEvent {
    /// Startup finished and the windows exist.
    SetupComplete,
    /// The splash screen asked to be closed.
    SplashCloseRequested,
    /// The user pressed the close button of the given window.
    CloseRequested { window: WindowId },
    TrayLeftClick,
    TrayMenuClick { id: TrayMenuId },
}

/// One action the controller asks the host to perform.
#[derive(Clone, Copy, Debug, PartialEq, Eq, Structural)]
pub enum HostAction {
    ShowWindow { window: WindowId },
    FocusWindow { window: WindowId },
    HideWindow { window: WindowId },
    CloseWindow { window: WindowId },
    /// Veto the default handling of a close request.
    PreventClose,
    /// Open the developer inspection overlay (debug builds only).
    OpenDevtools,
    /// Terminate the process immediately.
    ExitProcess,
}

/// Fixed per-process configuration of the controller.
#[derive(Clone, Copy, Debug, PartialEq, Eq, Structural)]
pub struct ControllerConfig {
    /// Close-to-tray is in force: a close request on a window hides it
    /// instead of letting the host destroy it.
    pub tray_active: bool,
    /// Debug build: open the developer inspection overlay at startup.
    pub debug: bool,
}

/// The actions, in order, that each lifecycle event requires of the host.
pub open spec fn event_actions(cfg: ControllerConfig, event: LifecycleEvent) -> Seq<HostAction> {
    match event {
        LifecycleEvent::SetupComplete => {
            let base = seq![
                HostAction::ShowWindow { window: WindowId::Main },
                HostAction::FocusWindow { window: WindowId::Main },
            ];
            if cfg.debug {
                base + seq![HostAction::OpenDevtools]
            } else {
                base
            }
        },
        LifecycleEvent::SplashCloseRequested => seq![
            HostAction::CloseWindow { window: WindowId::Splashscreen },
            HostAction::ShowWindow { window: WindowId::Main },
            HostAction::FocusWindow { window: WindowId::Main },
        ],
        LifecycleEvent::CloseRequested { window } => {
            if cfg.tray_active {
                seq![HostAction::PreventClose, HostAction::HideWindow { window }]
            } else {
                Seq::empty()
            }
        },
        LifecycleEvent::TrayLeftClick => seq![
            HostAction::ShowWindow { window: WindowId::Main },
            HostAction::FocusWindow { window: WindowId::Main },
        ],
        LifecycleEvent::TrayMenuClick { id } => match id {
            TrayMenuId::Show => seq![
                HostAction::ShowWindow { window: WindowId::Main },
                HostAction::FocusWindow { window: WindowId::Main },
            ],
            TrayMenuId::Hide => seq![HostAction::HideWindow { window: WindowId::Main }],
            TrayMenuId::Quit => seq![HostAction::ExitProcess],
            TrayMenuId::Other => Seq::empty(),
        },
    }
}

/// Decides, for one lifecycle event, which actions the host must perform,
/// in order.
pub fn handle_lifecycle_event(cfg: &ControllerConfig, event: LifecycleEvent) -> (r: Vec<
    HostAction,
>)
    ensures
        r@ == event_actions(*cfg, event),
{
    match event {
        LifecycleEvent::SetupComplete => {
            let mut v = vec![
                HostAction::ShowWindow { window: WindowId::Main },
                HostAction::FocusWindow { window: WindowId::Main },
            ];
            if cfg.debug {
                v.push(HostAction::OpenDevtools);
            }
            proof {
                assert(v@ =~= event_actions(*cfg, event));
            }
            v
        },
        LifecycleEvent::SplashCloseRequested => {
            let v = vec![
                HostAction::CloseWindow { window: WindowId::Splashscreen },
                HostAction::ShowWindow { window: WindowId::Main },
                HostAction::FocusWindow { window: WindowId::Main },
            ];
            proof {
                assert(v@ =~= event_actions(*cfg, event));
            }
            v
        },
        LifecycleEvent::CloseRequested { window } => {
            if cfg.tray_active {
                let v = vec![HostAction::PreventClose, HostAction::HideWindow { window }];
                proof {
                    assert(v@ =~= event_actions(*cfg, event));
                }
                v
            } else {
                let v: Vec<HostAction> = Vec::new();
                proof {
                    assert(v@ =~= event_actions(*cfg, event));
                }
                v
            }
        },
        LifecycleEvent::TrayLeftClick => {
            let v = vec![
                HostAction::ShowWindow { window: WindowId::Main },
                HostAction::FocusWindow { window: WindowId::Main },
            ];
            proof {
                assert(v@ =~= event_actions(*cfg, event));
            }
            v
        },
        LifecycleEvent::TrayMenuClick { id } => {
            let v: Vec<HostAction> = match id {
                TrayMenuId::Show => vec![
                    HostAction::ShowWindow { window: WindowId::Main },
                    HostAction::FocusWindow { window: WindowId::Main },
                ],
                TrayMenuId::Hide => vec![HostAction::HideWindow { window: WindowId::Main }],
                TrayMenuId::Quit => vec![HostAction::ExitProcess],
                TrayMenuId::Other => Vec::new(),
            };
            proof {
                assert(v@ =~= event_actions(*cfg, event));
            }
            v
        },
    }
}

/// The lifecycle event a tray interaction gives rise to, if any.
pub open spec fn spec_tray_event(event: SystemTrayEvent) -> Option<LifecycleEvent> {
    match event {
        SystemTrayEvent::LeftClick => Some(LifecycleEvent::TrayLeftClick),
        SystemTrayEvent::MenuItemClick { id } => Some(LifecycleEvent::TrayMenuClick { id }),
        SystemTrayEvent::Other => None,
    }
}

/// Dispatches a tray interaction: left-clicks and menu clicks become
/// lifecycle events; anything else is ignored.
pub fn handle_system_tray_event(cfg: &ControllerConfig, event: SystemTrayEvent) -> (r: Vec<
    HostAction,
>)
    ensures
        r@ == match spec_tray_event(event) {
            Some(e) => event_actions(*cfg, e),
            None => Seq::<HostAction>::empty(),
        },
{
    match event {
        SystemTrayEvent::LeftClick => handle_lifecycle_event(cfg, LifecycleEvent::TrayLeftClick),
        SystemTrayEvent::MenuItemClick { id } => handle_lifecycle_event(
            cfg,
            LifecycleEvent::TrayMenuClick { id },
        ),
        SystemTrayEvent::Other => {
            let v: Vec<HostAction> = Vec::new();
            proof {
                assert(v@ =~= Seq::<HostAction>::empty());
            }
            v
        },
    }
}

/// The window an action operates on, if any.
pub open spec fn action_target(a: HostAction) -> Option<WindowId> {
    match a {
        HostAction::ShowWindow { window } => Some(window),
        HostAction::FocusWindow { window } => Some(window),
        HostAction::HideWindow { window } => Some(window),
        HostAction::CloseWindow { window } => Some(window),
        HostAction::PreventClose => None,
        HostAction::OpenDevtools => None,
        HostAction::ExitProcess => None,
    }
}

/// The log entry one action leaves behind: the name of the window it
/// targeted, when that window is not live in `h`; nothing otherwise.
pub open spec fn spec_miss_entry(h: HostModel, a: HostAction) -> Seq<Seq<char>> {
    if h.spec_action_miss(a) {
        match action_target(a) {
            Some(w) => seq![spec_window_name(w)],
            None => Seq::<Seq<char>>::empty(),
        }
    } else {
        Seq::<Seq<char>>::empty()
    }
}

/// The names of the windows that the actions miss (target while not live),
/// in the order the misses happen as the run proceeds.
pub open spec fn spec_missed_names(h: HostModel, s: Seq<HostAction>) -> Seq<Seq<char>>
    decreases s.len(),
{
    if s.len() == 0 {
        Seq::<Seq<char>>::empty()
    } else {
        spec_miss_entry(h, s[0]) + spec_missed_names(h.spec_apply(s[0]), s.drop_first())
    }
}

/// The window names a sequence of log events reports, in order.
pub open spec fn spec_log_names(logs: Seq<LogEvent>) -> Seq<Seq<char>> {
    logs.map_values(|e: LogEvent| e.spec_name())
}

/// A model of everything the host mutates on the controller's behalf: the
/// windows, whether the process is still alive, whether the pending close
/// request was vetoed, and the developer overlay.
#[derive(Clone, Copy, Debug, PartialEq, Eq, Structural)]
pub struct HostModel {
    pub registry: WindowRegistry,
    pub alive: bool,
    pub close_prevented: bool,
    pub devtools_open: bool,
}

impl HostModel {
    /// The effect of one host action. Actions on a window that is not live
    /// leave everything unchanged: the miss is recovered locally.
    pub open spec fn spec_apply(self, a: HostAction) -> HostModel {
        match a {
            HostAction::ShowWindow { window } => {
                if self.registry.is_live(window) {
                    HostModel { registry: self.registry.spec_show(window), ..self }
                } else {
                    self
                }
            },
            HostAction::FocusWindow { window } => {
                if self.registry.is_live(window) {
                    HostModel { registry: self.registry.spec_focus(window), ..self }
                } else {
                    self
                }
            },
            HostAction::HideWindow { window } => {
                if self.registry.is_live(window) {
                    HostModel { registry: self.registry.spec_hide(window), ..self }
                } else {
                    self
                }
            },
            HostAction::CloseWindow { window } => {
                if self.registry.is_live(window) {
                    HostModel { registry: self.registry.spec_close(window), ..self }
                } else {
                    self
                }
            },
            HostAction::PreventClose => HostModel { close_prevented: true, ..self },
            HostAction::OpenDevtools => HostModel { devtools_open: true, ..self },
            HostAction::ExitProcess => HostModel { alive: false, ..self },
        }
    }

    /// The effect of a sequence of host actions, performed in order.
    pub open spec fn spec_run(self, actions: Seq<HostAction>) -> HostModel
        decreases actions.len(),
    {
        if actions.len() == 0 {
            self
        } else {
            self.spec_apply(actions[0]).spec_run(actions.drop_first())
        }
    }

    /// Whether the action misses: it targets a window that is not live.
    pub open spec fn spec_action_miss(self, a: HostAction) -> bool {
        match action_target(a) {
            Some(w) => !self.registry.is_live(w),
            None => false,
        }
    }

    /// A fresh host: no window created yet, process alive.
    pub fn new() -> (r: HostModel)
        ensures
            !r.registry.is_live(WindowId::Main),
            !r.registry.is_live(WindowId::Splashscreen),
            r.registry.main.visibility is Uninitialized,
            r.registry.splashscreen.visibility is Uninitialized,
            !r.registry.main.focused,
            !r.registry.splashscreen.focused,
            r.alive,
            !r.close_prevented,
            !r.devtools_open,
    {
        HostModel {
            registry: WindowRegistry::new(),
            alive: true,
            close_prevented: false,
            devtools_open: false,
        }
    }

    /// Performs one action on the model. An action that targets a window
    /// that is not live changes nothing and is reported as a log event,
    /// naming that window; every other action is carried out silently.
    pub fn apply_action(&mut self, a: HostAction) -> (r: Option<LogEvent>)
        ensures
            *final(self) == old(self).spec_apply(a),
            action_target(a) matches Some(w) ==> {
                &&& old(self).spec_action_miss(a) ==> (r matches Some(
                    LogEvent::WindowNotFound { name },
                ) && name@ == spec_window_name(w))
                &&& !old(self).spec_action_miss(a) ==> r is None
            },
            action_target(a) is None ==> r is None,
    {
        match a {
            HostAction::ShowWindow { window } => {
                let r = self.registry.show_by_id(window);
                proof {
                    assert(*self =~= old(self).spec_apply(a));
                }
                r
            },
            HostAction::FocusWindow { window } => {
                let r = self.registry.focus_by_id(window);
                proof {
                    assert(*self =~= old(self).spec_apply(a));
                }
                r
            },
            HostAction::HideWindow { window } => {
                let r = self.registry.hide_by_id(window);
                proof {
                    assert(*self =~= old(self).spec_apply(a));
                }
                r
            },
            HostAction::CloseWindow { window } => {
                let r = self.registry.close_by_id(window);
                proof {
                    assert(*self =~= old(self).spec_apply(a));
                }
                r
            },
            HostAction::PreventClose => {
                self.close_prevented = true;
                None
            },
            HostAction::OpenDevtools => {
                self.devtools_open = true;
                None
            },
            HostAction::ExitProcess => {
                self.alive = false;
                None
            },
        }
    }

    /// Performs a sequence of actions in order. Every miss — an action on a
    /// window that is already gone — is recovered locally and returned as a
    /// log event; the logs name the missed windows in the order the misses
    /// happened, and nothing else is ever reported.
    pub fn run_actions(&mut self, actions: &Vec<HostAction>) -> (logs: Vec<LogEvent>)
        ensures
            *final(self) == old(self).spec_run(actions@),
            spec_log_names(logs@) == spec_missed_names(*old(self), actions@),
    {
        let mut logs: Vec<LogEvent> = Vec::new();
        let mut i: usize = 0;
        while i < actions.len()
            invariant
                i <= actions@.len(),
                old(self).spec_run(actions@.take(i as int)) == *self,
                spec_log_names(logs@) == spec_missed_names(*old(self), actions@.take(i as int)),
            decreases actions@.len() - i,
        {
            proof {
                lemma_spec_run_snoc(*old(self), actions@, i as int);
                lemma_missed_snoc(*old(self), actions@, i as int);
            }
            let ghost logs_before = logs@;
            let ghost state_before = *self;
            match self.apply_action(actions[i]) {
                Some(e) => {
                    proof {
                        assert(spec_miss_entry(state_before, actions@[i as int]) =~= seq![
                            e.spec_name(),
                        ]);
                    }
                    logs.push(e);
                    proof {
                        assert(spec_log_names(logs@) =~= spec_log_names(logs_before) + seq![
                            e.spec_name(),
                        ]);
                    }
                },
                None => {
                    proof {
                        assert(spec_miss_entry(state_before, actions@[i as int])
                            =~= Seq::<Seq<char>>::empty());
                        assert(spec_missed_names(*old(self), actions@.take(i as int + 1))
                            =~= spec_missed_names(*old(self), actions@.take(i as int)));
                    }
                },
            }
            i = i + 1;
        }
        proof {
            assert(actions@.take(actions@.len() as int) =~= actions@);
        }
        logs
    }
}

/// Running an empty action sequence changes nothing.
proof fn lemma_run_nil(h: HostModel, s: Seq<HostAction>)
    requires
        s.len() == 0,
    ensures
        h.spec_run(s) == h,
{
}

/// Running one more action is the same as applying it to the state reached
/// by the prefix before it.
proof fn lemma_spec_run_snoc(h: HostModel, actions: Seq<HostAction>, i: int)
    requires
        0 <= i < actions.len(),
    ensures
        h.spec_run(actions.take(i + 1)) == h.spec_run(actions.take(i)).spec_apply(actions[i]),
    decreases i,
{
    if i == 0 {
        let s1 = actions.take(1);
        assert(actions.take(0) =~= Seq::<HostAction>::empty());
        assert(h.spec_run(actions.take(0)) == h);
        assert(s1[0] == actions[0]);
        assert(s1.drop_first() =~= Seq::<HostAction>::empty());
        assert(h.spec_run(s1) == h.spec_apply(actions[0]).spec_run(s1.drop_first()));
        assert(h.spec_apply(actions[0]).spec_run(s1.drop_first()) == h.spec_apply(actions[0]));
    } else {
        let ad = actions.drop_first();
        let h1 = h.spec_apply(actions[0]);
        lemma_spec_run_snoc(h1, ad, i - 1);
        assert(actions.take(i + 1).drop_first() =~= ad.take(i));
        assert(actions.take(i).drop_first() =~= ad.take(i - 1));
        assert(actions.take(i + 1)[0] == actions[0]);
        assert(actions.take(i)[0] == actions[0]);
        assert(ad[i - 1] == actions[i]);
        assert(h.spec_run(actions.take(i + 1)) == h1.spec_run(ad.take(i)));
        assert(h.spec_run(actions.take(i)) == h1.spec_run(ad.take(i - 1)));
    }
}

/// The misses of one more action are the misses of the prefix before it,
/// followed by that action's own miss entry in the state the prefix
/// reaches.
proof fn lemma_missed_snoc(h: HostModel, actions: Seq<HostAction>, i: int)
    requires
        0 <= i < actions.len(),
    ensures
        spec_missed_names(h, actions.take(i + 1)) == spec_missed_names(h, actions.take(i))
            + spec_miss_entry(h.spec_run(actions.take(i)), actions[i]),
    decreases i,
{
    if i == 0 {
        let s1 = actions.take(1);
        assert(actions.take(0) =~= Seq::<HostAction>::empty());
        assert(h.spec_run(actions.take(0)) == h);
        assert(spec_missed_names(h, actions.take(0)) =~= Seq::<Seq<char>>::empty());
        assert(s1[0] == actions[0]);
        assert(s1.drop_first() =~= Seq::<HostAction>::empty());
        assert(spec_missed_names(h.spec_apply(actions[0]), s1.drop_first()) =~= Seq::<
            Seq<char>,
        >::empty());
        assert(spec_missed_names(h, actions.take(1)) =~= spec_missed_names(h, actions.take(0))
            + spec_miss_entry(h, actions[0]));
    } else {
        let ad = actions.drop_first();
        let h1 = h.spec_apply(actions[0]);
        lemma_missed_snoc(h1, ad, i - 1);
        assert(actions.take(i + 1).drop_first() =~= ad.take(i));
        assert(actions.take(i).drop_first() =~= ad.take(i - 1));
        assert(actions.take(i + 1)[0] == actions[0]);
        assert(actions.take(i)[0] == actions[0]);
        assert(ad[i - 1] == actions[i]);
        assert(h.spec_run(actions.take(i)) == h1.spec_run(ad.take(i - 1)));
        assert(spec_missed_names(h, actions.take(i + 1)) == spec_miss_entry(h, actions[0])
            + spec_missed_names(h1, ad.take(i)));
        assert(spec_missed_names(h, actions.take(i)) == spec_miss_entry(h, actions[0])
            + spec_missed_names(h1, ad.take(i - 1)));
        assert(spec_missed_names(h, actions.take(i + 1)) =~= spec_missed_names(h, actions.take(i))
            + spec_miss_entry(h.spec_run(actions.take(i)), actions[i]));
    }
}

/// Unfolds one step of `spec_run`.
proof fn lemma_run_step(h: HostModel, s: Seq<HostAction>)
    requires
        s.len() > 0,
    ensures
        h.spec_run(s) == h.spec_apply(s[0]).spec_run(s.drop_first()),
{
}

/// Running a single action is applying it.
proof fn lemma_run1(h: HostModel, s: Seq<HostAction>)
    requires
        s.len() == 1,
    ensures
        h.spec_run(s) == h.spec_apply(s[0]),
{
    lemma_run_step(h, s);
    assert(s.drop_first() =~= Seq::<HostAction>::empty());
    lemma_run_nil(h.spec_apply(s[0]), s.drop_first());
}

/// Running two actions is applying them in order.
proof fn lemma_run2(h: HostModel, s: Seq<HostAction>)
    requires
        s.len() == 2,
    ensures
        h.spec_run(s) == h.spec_apply(s[0]).spec_apply(s[1]),
{
    lemma_run_step(h, s);
    lemma_run1(h.spec_apply(s[0]), s.drop_first());
    assert(s.drop_first()[0] == s[1]);
}

/// Running three actions is applying them in order.
proof fn lemma_run3(h: HostModel, s: Seq<HostAction>)
    requires
        s.len() == 3,
    ensures
        h.spec_run(s) == h.spec_apply(s[0]).spec_apply(s[1]).spec_apply(s[2]),
{
    lemma_run_step(h, s);
    lemma_run2(h.spec_apply(s[0]), s.drop_first());
    assert(s.drop_first()[0] == s[1]);
    assert(s.drop_first()[1] == s[2]);
}

/// Close-to-tray: while tray mode is active, a close request on the main
/// window never terminates the process. The default close is vetoed and the
/// window is hidden instead; it stays resident (live) for a later re-show,
/// and the splash screen is untouched.
pub proof fn lemma_close_to_tray(cfg: ControllerConfig, h: HostModel)
    requires
        cfg.tray_active,
    ensures
        ({
            let h2 = h.spec_run(
                event_actions(cfg, LifecycleEvent::CloseRequested { window: WindowId::Main }),
            );
            &&& h2.alive == h.alive
            &&& h2.close_prevented
            &&& (h.registry.is_live(WindowId::Main) ==> h2.registry.vis(WindowId::Main) is Hidden)
            &&& (h.registry.is_live(WindowId::Main) ==> h2.registry.is_live(WindowId::Main))
            &&& h2.registry.state_of(WindowId::Splashscreen) == h.registry.state_of(
                WindowId::Splashscreen,
            )
        }),
{
    let acts = event_actions(cfg, LifecycleEvent::CloseRequested { window: WindowId::Main });
    lemma_run2(h, acts);
}

/// Splash sequencing: after a splash-close request, the splash screen
/// reaches `Closed` before (never after) the main window reaches `Shown`:
/// at every point along the action sequence, if the main window has become
/// visible then the splash screen is already closed.
#[verifier::rlimit(50)]
pub proof fn lemma_splash_sequencing(cfg: ControllerConfig, h: HostModel)
    requires
        h.registry.is_live(WindowId::Splashscreen),
        !(h.registry.vis(WindowId::Main) is Shown),
    ensures
        ({
            let acts = event_actions(cfg, LifecycleEvent::SplashCloseRequested);
            &&& h.spec_run(acts).registry.vis(WindowId::Splashscreen) is Closed
            &&& (h.registry.is_live(WindowId::Main) ==> h.spec_run(acts).registry.vis(
                WindowId::Main,
            ) is Shown)
            &&& forall|k: int|
                0 <= k <= acts.len() ==> ((#[trigger] h.spec_run(acts.take(k))).registry.vis(
                    WindowId::Main,
                ) is Shown ==> h.spec_run(acts.take(k)).registry.vis(
                    WindowId::Splashscreen,
                ) is Closed)
        }),
{
    let acts = event_actions(cfg, LifecycleEvent::SplashCloseRequested);
    let r1 = h.spec_apply(acts[0]);
    let r2 = r1.spec_apply(acts[1]);
    let r3 = r2.spec_apply(acts[2]);
    lemma_run3(h, acts);
    assert(acts.take(3) =~= acts);
    assert(r1.registry.vis(WindowId::Splashscreen) is Closed);
    assert forall|k: int| 0 <= k <= acts.len() implies ((#[trigger] h.spec_run(
        acts.take(k),
    )).registry.vis(WindowId::Main) is Shown ==> h.spec_run(acts.take(k)).registry.vis(
        WindowId::Splashscreen,
    ) is Closed) by {
        if k == 0 {
            assert(acts.take(k) =~= Seq::<HostAction>::empty());
            lemma_run_nil(h, acts.take(k));
        } else if k == 1 {
            assert(acts.take(k).len() == 1);
            assert(acts.take(k)[0] == acts[0]);
            lemma_run1(h, acts.take(k));
            assert(h.spec_run(acts.take(k)) == r1);
        } else if k == 2 {
            assert(acts.take(k).len() == 2);
            assert(acts.take(k)[0] == acts[0]);
            assert(acts.take(k)[1] == acts[1]);
            lemma_run2(h, acts.take(k));
            assert(h.spec_run(acts.take(k)) == r2);
        } else {
            assert(acts.take(k) =~= acts);
            assert(h.spec_run(acts.take(k)) == r3);
        }
    }
}

/// A quit menu-click terminates the process immediately; it touches no
/// window on the way out.
pub proof fn lemma_tray_quit_terminates(cfg: ControllerConfig, h: HostModel)
    ensures
        ({
            let h2 = h.spec_run(
                event_actions(cfg, LifecycleEvent::TrayMenuClick { id: TrayMenuId::Quit }),
            );
            &&& !h2.alive
            &&& h2.registry == h.registry
        }),
{
    let acts = event_actions(cfg, LifecycleEvent::TrayMenuClick { id: TrayMenuId::Quit });
    lemma_run1(h, acts);
}

/// Every tray interaction except the quit menu-click only ever affects the
/// main window: the splash screen's state is untouched and the process
/// stays alive.
pub proof fn lemma_tray_clicks_touch_main_only(
    cfg: ControllerConfig,
    h: HostModel,
    e: SystemTrayEvent,
)
    requires
        !(e matches SystemTrayEvent::MenuItemClick { id: TrayMenuId::Quit }),
    ensures
        ({
            let h2 = match spec_tray_event(e) {
                Some(ev) => h.spec_run(event_actions(cfg, ev)),
                None => h,
            };
            &&& h2.registry.state_of(WindowId::Splashscreen) == h.registry.state_of(
                WindowId::Splashscreen,
            )
            &&& h2.alive == h.alive
        }),
{
    match e {
        SystemTrayEvent::LeftClick => {
            let acts = event_actions(cfg, LifecycleEvent::TrayLeftClick);
            lemma_run2(h, acts);
        },
        SystemTrayEvent::MenuItemClick { id } => {
            let acts = event_actions(cfg, LifecycleEvent::TrayMenuClick { id });
            match id {
                TrayMenuId::Show => {
                    lemma_run2(h, acts);
                },
                TrayMenuId::Hide => {
                    lemma_run1(h, acts);
                },
                TrayMenuId::Quit => {
                    assert(false);
                },
                TrayMenuId::Other => {
                    lemma_run_nil(h, acts);
                },
            }
        },
        SystemTrayEvent::Other => {
        },
    }
}

} // verus!
