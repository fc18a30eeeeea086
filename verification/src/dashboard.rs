//! The dashboard window's lifecycle: its three-state visibility machine and
//! the fixed creation profiles.
//!
//! The window itself is owned by the operating system; the library decides,
//! from the window's observed state, which window-manager actions to issue
//! and what state the window is in afterwards. The shell queries the state,
//! calls a plan function, performs the returned actions in order, and the
//! contracts tie the resulting state to the observed one.

use vstd::prelude::*;

verus! {

/// The observed state of the dashboard window. `Absent` is only the
/// pre-creation state: no action ever destroys the window.
#[derive(Clone, Copy, PartialEq, Eq, Structural, Debug)]
pub enum DashboardState {
    Absent,
    Hidden,
    Visible,
}

/// A window-manager action the shell is asked to perform. `Create` builds
/// the window with the platform profile and leaves it visible.
#[derive(Clone, Copy, PartialEq, Eq, Structural, Debug)]
pub enum DashboardAction {
    Create,
    Show,
    Hide,
    Focus,
}

/// How many dashboard windows exist in a given state: the label is unique,
/// so there is never more than one.
pub open spec fn window_count(s: DashboardState) -> int {
    match s {
        DashboardState::Absent => 0,
        DashboardState::Hidden => 1,
        DashboardState::Visible => 1,
    }
}

/// The actions an open request issues: an existing window is focused and
/// shown, a missing one is created.
pub open spec fn open_actions(s: DashboardState) -> Seq<DashboardAction> {
    match s {
        DashboardState::Absent => seq![DashboardAction::Create],
        DashboardState::Hidden => seq![DashboardAction::Focus, DashboardAction::Show],
        DashboardState::Visible => seq![DashboardAction::Focus, DashboardAction::Show],
    }
}

/// The state after an open request: the window exists and is visible.
pub open spec fn open_next(s: DashboardState) -> DashboardState {
    DashboardState::Visible
}

/// The actions a toggle request issues: a visible window is hidden, a hidden
/// one is shown and focused, a missing one is created.
pub open spec fn toggle_actions(s: DashboardState) -> Seq<DashboardAction> {
    match s {
        DashboardState::Absent => seq![DashboardAction::Create],
        DashboardState::Hidden => seq![DashboardAction::Show, DashboardAction::Focus],
        DashboardState::Visible => seq![DashboardAction::Hide],
    }
}

/// The state after a toggle request.
pub open spec fn toggle_next(s: DashboardState) -> DashboardState {
    match s {
        DashboardState::Absent => DashboardState::Visible,
        DashboardState::Hidden => DashboardState::Visible,
        DashboardState::Visible => DashboardState::Hidden,
    }
}

/// The observed state, from whether the window exists and, if so, whether
/// the visibility query reported it visible.
pub fn observed_state(exists: bool, visible: bool) -> (r: DashboardState)
    ensures
        r == DashboardState::Absent <==> !exists,
        exists && visible ==> r == DashboardState::Visible,
        exists && !visible ==> r == DashboardState::Hidden,
{
    if !exists {
        DashboardState::Absent
    } else if visible {
        DashboardState::Visible
    } else {
        DashboardState::Hidden
    }
}

/// Plans an open request: the actions to issue, in order, and the state the
/// window is in once they have been performed.
pub fn open_dashboard_plan(state: DashboardState) -> (r: (Vec<DashboardAction>, DashboardState))
    ensures
        r.0@ == open_actions(state),
        r.1 == open_next(state),
{
    match state {
        DashboardState::Absent => (vec![DashboardAction::Create], DashboardState::Visible),
        _ => (vec![DashboardAction::Focus, DashboardAction::Show], DashboardState::Visible),
    }
}

/// Plans a toggle request: the actions to issue, in order, and the state the
/// window is in once they have been performed.
pub fn toggle_dashboard_plan(state: DashboardState) -> (r: (Vec<DashboardAction>, DashboardState))
    ensures
        r.0@ == toggle_actions(state),
        r.1 == toggle_next(state),
{
    match state {
        DashboardState::Absent => (vec![DashboardAction::Create], DashboardState::Visible),
        DashboardState::Hidden => (
            vec![DashboardAction::Show, DashboardAction::Focus],
            DashboardState::Visible,
        ),
        DashboardState::Visible => (vec![DashboardAction::Hide], DashboardState::Hidden),
    }
}

/// Opening the dashboard is idempotent: after an open request the window is
/// visible, exactly one dashboard window exists, and a second open request
/// reaches the same state without creating another window — the only state
/// whose plan creates a window is `Absent`, which no open request leads to.
pub proof fn lemma_open_idempotent(s: DashboardState)
    ensures
        open_next(s) == DashboardState::Visible,
        window_count(open_next(s)) == 1,
        open_next(open_next(s)) == open_next(s),
        !open_actions(open_next(s)).contains(DashboardAction::Create),
        forall|t: DashboardState|
            #[trigger] open_actions(t).contains(DashboardAction::Create) <==> t
                == DashboardState::Absent,
{
    assert forall|t: DashboardState|
        #[trigger] open_actions(t).contains(DashboardAction::Create) <==> t
            == DashboardState::Absent by {
        if t == DashboardState::Absent {
            assert(open_actions(t)[0] == DashboardAction::Create);
        }
    }
}

/// Toggle correctness over the three-state machine: from `Absent` a toggle
/// creates the window and leaves it visible, from `Visible` it hides, from
/// `Hidden` it shows and focuses; two toggles from `Hidden` return to
/// `Hidden` by way of `Visible`.
pub proof fn lemma_toggle_cycle()
    ensures
        toggle_next(DashboardState::Absent) == DashboardState::Visible,
        toggle_actions(DashboardState::Absent) == seq![DashboardAction::Create],
        toggle_next(DashboardState::Visible) == DashboardState::Hidden,
        toggle_actions(DashboardState::Visible) == seq![DashboardAction::Hide],
        toggle_next(DashboardState::Hidden) == DashboardState::Visible,
        toggle_actions(DashboardState::Hidden) == seq![
            DashboardAction::Show,
            DashboardAction::Focus,
        ],
        toggle_next(toggle_next(DashboardState::Hidden)) == DashboardState::Hidden,
{
}

/// The host platform families the creation profile distinguishes: the one
/// with the overlay title bar and traffic-light controls, and every other.
#[derive(Clone, Copy, PartialEq, Eq, Structural, Debug)]
pub enum HostPlatform {
    MacOs,
    Other,
}

/// The offset of the window-control cluster from the window's top-left
/// corner, in logical units.
#[derive(Clone, Copy, PartialEq, Eq, Structural, Debug)]
pub struct ControlOffset {
    pub x: u32,
    pub y: u32,
}

/// The fixed configuration a dashboard window is created with. Sizes are in
/// logical units; `traffic_light` is the offset of the window controls where
/// the platform has them.
#[derive(Clone, Copy, PartialEq, Eq, Structural, Debug)]
pub struct DashboardConfig {
    pub width: u32,
    pub height: u32,
    pub min_width: u32,
    pub min_height: u32,
    pub decorations: bool,
    pub centered: bool,
    pub visible: bool,
    pub content_protected: bool,
    pub hidden_title: bool,
    pub overlay_title_bar: bool,
    pub traffic_light: Option<ControlOffset>,
}

/// The profile each platform family creates the dashboard with: 1200x800
/// with an 800x600 minimum and overlay title-bar styling on the one
/// platform, a fixed 800x600 elsewhere; both centered, decorated, visible at
/// once, and protected from external capture.
pub open spec fn dashboard_config_of(p: HostPlatform) -> DashboardConfig {
    match p {
        HostPlatform::MacOs => DashboardConfig {
            width: 1200,
            height: 800,
            min_width: 800,
            min_height: 600,
            decorations: true,
            centered: true,
            visible: true,
            content_protected: true,
            hidden_title: true,
            overlay_title_bar: true,
            traffic_light: Some(ControlOffset { x: 14, y: 18 }),
        },
        HostPlatform::Other => DashboardConfig {
            width: 800,
            height: 600,
            min_width: 800,
            min_height: 600,
            decorations: true,
            centered: true,
            visible: true,
            content_protected: true,
            hidden_title: false,
            overlay_title_bar: false,
            traffic_light: None,
        },
    }
}

/// Builds the creation profile for the given platform family.
pub fn dashboard_config(p: HostPlatform) -> (r: DashboardConfig)
    ensures
        r == dashboard_config_of(p),
{
    match p {
        HostPlatform::MacOs => DashboardConfig {
            width: 1200,
            height: 800,
            min_width: 800,
            min_height: 600,
            decorations: true,
            centered: true,
            visible: true,
            content_protected: true,
            hidden_title: true,
            overlay_title_bar: true,
            traffic_light: Some(ControlOffset { x: 14, y: 18 }),
        },
        HostPlatform::Other => DashboardConfig {
            width: 800,
            height: 600,
            min_width: 800,
            min_height: 600,
            decorations: true,
            centered: true,
            visible: true,
            content_protected: true,
            hidden_title: false,
            overlay_title_bar: false,
            traffic_light: None,
        },
    }
}

/// The label the dashboard window is registered under.
pub fn dashboard_label() -> (r: &'static str)
    ensures
        r@ == "dashboard"@,
{
    "dashboard"
}

/// The title the dashboard window is created with.
pub fn dashboard_title() -> (r: &'static str)
    ensures
        r@ == "Pluely - Dashboard"@,
{
    "Pluely - Dashboard"
}

/// The application route the dashboard window opens on.
pub fn dashboard_url_path() -> (r: &'static str)
    ensures
        r@ == "/chats"@,
{
    "/chats"
}

} // verus!
