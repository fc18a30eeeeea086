use pluely_window::dashboard::{
    dashboard_config, dashboard_label, dashboard_title, dashboard_url_path, observed_state,
    open_dashboard_plan, toggle_dashboard_plan, ControlOffset, DashboardAction, DashboardState,
    HostPlatform,
};

#[test]
fn observed_state_distinguishes_the_three_cases() {
    assert_eq!(observed_state(false, false), DashboardState::Absent);
    assert_eq!(observed_state(false, true), DashboardState::Absent);
    assert_eq!(observed_state(true, false), DashboardState::Hidden);
    assert_eq!(observed_state(true, true), DashboardState::Visible);
}

#[test]
fn open_from_absent_creates() {
    let (actions, next) = open_dashboard_plan(DashboardState::Absent);
    assert_eq!(actions, vec![DashboardAction::Create]);
    assert_eq!(next, DashboardState::Visible);
}

#[test]
fn open_from_hidden_focuses_then_shows() {
    let (actions, next) = open_dashboard_plan(DashboardState::Hidden);
    assert_eq!(actions, vec![DashboardAction::Focus, DashboardAction::Show]);
    assert_eq!(next, DashboardState::Visible);
}

#[test]
fn open_twice_creates_exactly_once() {
    let (first_actions, after_first) = open_dashboard_plan(DashboardState::Absent);
    let (second_actions, after_second) = open_dashboard_plan(after_first);
    let creates = first_actions
        .iter()
        .chain(second_actions.iter())
        .filter(|a| **a == DashboardAction::Create)
        .count();
    assert_eq!(creates, 1);
    assert_eq!(after_first, DashboardState::Visible);
    assert_eq!(after_second, DashboardState::Visible);
}

#[test]
fn toggle_from_absent_creates_and_shows() {
    let (actions, next) = toggle_dashboard_plan(DashboardState::Absent);
    assert_eq!(actions, vec![DashboardAction::Create]);
    assert_eq!(next, DashboardState::Visible);
}

#[test]
fn toggle_from_visible_hides() {
    let (actions, next) = toggle_dashboard_plan(DashboardState::Visible);
    assert_eq!(actions, vec![DashboardAction::Hide]);
    assert_eq!(next, DashboardState::Hidden);
}

#[test]
fn toggle_from_hidden_shows_and_focuses() {
    let (actions, next) = toggle_dashboard_plan(DashboardState::Hidden);
    assert_eq!(actions, vec![DashboardAction::Show, DashboardAction::Focus]);
    assert_eq!(next, DashboardState::Visible);
}

#[test]
fn two_toggles_from_hidden_return_to_hidden() {
    let (_, once) = toggle_dashboard_plan(DashboardState::Hidden);
    assert_eq!(once, DashboardState::Visible);
    let (_, twice) = toggle_dashboard_plan(once);
    assert_eq!(twice, DashboardState::Hidden);
}

#[test]
fn the_first_platform_profile() {
    let c = dashboard_config(HostPlatform::MacOs);
    assert_eq!((c.width, c.height), (1200, 800));
    assert_eq!((c.min_width, c.min_height), (800, 600));
    assert!(c.decorations && c.centered && c.visible && c.content_protected);
    assert!(c.hidden_title && c.overlay_title_bar);
    assert_eq!(c.traffic_light, Some(ControlOffset { x: 14, y: 18 }));
}

#[test]
fn the_other_platforms_profile() {
    let c = dashboard_config(HostPlatform::Other);
    assert_eq!((c.width, c.height), (800, 600));
    assert_eq!((c.min_width, c.min_height), (800, 600));
    assert!(c.decorations && c.centered && c.visible && c.content_protected);
    assert!(!c.hidden_title && !c.overlay_title_bar);
    assert_eq!(c.traffic_light, None);
}

#[test]
fn the_fixed_names() {
    assert_eq!(dashboard_label(), "dashboard");
    assert_eq!(dashboard_title(), "Pluely - Dashboard");
    assert_eq!(dashboard_url_path(), "/chats");
}
