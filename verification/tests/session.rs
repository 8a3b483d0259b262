use firework_maker::{
    firework_launch, AppState, FireWorkOptions, MenuEvent, Metal, Panel, Session, Vector,
};

#[test]
fn session_starts_in_the_menu_with_no_metal() {
    let session = Session::new();
    assert_eq!(session.state, AppState::Builder);
    assert_eq!(session.options, FireWorkOptions { titanium: false, manganese: false, iron: false });
    assert_eq!(Session::default(), session);
    assert_eq!(AppState::default(), AppState::Builder);
}

#[test]
fn menu_runs_only_before_the_launch() {
    assert!(AppState::Builder.runs_menu());
    assert!(!AppState::Launch.runs_menu());
}

#[test]
fn menu_is_shown_before_the_launch_only() {
    let mut session = Session::new();
    assert_eq!(
        session.view(),
        vec![Panel::Header, Panel::Options, Panel::Launch, Panel::Center]
    );
    assert!(session.update(&[MenuEvent::LaunchPressed]).is_some());
    assert_eq!(session.view(), vec![]);
}

#[test]
fn toggle_then_launch() {
    let mut session = Session::new();
    assert_eq!(session.state, AppState::Builder);
    assert_eq!(session.options, FireWorkOptions::default());

    assert_eq!(session.update(&[MenuEvent::Toggled(Metal::Manganese)]), None);
    assert_eq!(session.state, AppState::Builder);
    assert_eq!(session.options, FireWorkOptions { titanium: false, manganese: true, iron: false });

    let plan = session.update(&[MenuEvent::LaunchPressed]).expect("the button launches");
    assert_eq!(session.state, AppState::Launch);
    assert_eq!(session.options, FireWorkOptions { titanium: false, manganese: true, iron: false });

    assert_eq!(plan.camera.position, Vector { x: -2000, y: 2500, z: 5000 });
    assert_eq!(plan.scene.translation, Vector { x: 0, y: -2000, z: 0 });
    assert!(plan.scene.repeat);
    assert_eq!(plan.scene.name, plan.clip.target);
    assert_eq!(plan.clip.keyframes[1].time, 1000);
    for keyframe in &plan.clip.keyframes[1..] {
        assert_eq!(keyframe.translation, Vector { x: 0, y: 1000, z: 0 });
    }
    assert_eq!(plan.clip.keyframes[4].time, 4000);
    assert_eq!(plan, firework_launch());
}

#[test]
fn frames_without_the_button_stay_in_the_menu() {
    let mut session = Session::new();
    let frames: [&[MenuEvent]; 4] = [
        &[],
        &[MenuEvent::Toggled(Metal::Iron)],
        &[MenuEvent::Toggled(Metal::Titanium), MenuEvent::Toggled(Metal::Iron)],
        &[],
    ];
    for events in frames {
        assert_eq!(session.update(events), None);
        assert_eq!(session.state, AppState::Builder);
    }
    assert_eq!(session.options, FireWorkOptions { titanium: true, manganese: false, iron: false });
}

#[test]
fn after_the_launch_nothing_changes() {
    let mut session = Session::new();
    assert!(session.update(&[MenuEvent::Toggled(Metal::Iron), MenuEvent::LaunchPressed]).is_some());
    let launched = session;
    assert_eq!(launched.state, AppState::Launch);
    assert_eq!(launched.options, FireWorkOptions { titanium: false, manganese: false, iron: true });

    let frames: [&[MenuEvent]; 4] = [
        &[],
        &[MenuEvent::Toggled(Metal::Iron)],
        &[MenuEvent::LaunchPressed],
        &[MenuEvent::Toggled(Metal::Titanium), MenuEvent::LaunchPressed],
    ];
    for events in frames {
        assert_eq!(session.update(events), None);
        assert_eq!(session, launched);
    }
}

#[test]
fn firework_is_launched_once() {
    let mut session = Session::new();
    let frames: [&[MenuEvent]; 5] = [
        &[MenuEvent::Toggled(Metal::Titanium)],
        &[MenuEvent::LaunchPressed, MenuEvent::LaunchPressed],
        &[MenuEvent::LaunchPressed],
        &[],
        &[MenuEvent::LaunchPressed],
    ];
    let mut launches = 0;
    for events in frames {
        if session.update(events).is_some() {
            launches += 1;
        }
    }
    assert_eq!(launches, 1);
    assert_eq!(session.state, AppState::Launch);
}

#[test]
fn a_session_made_in_the_launch_stays_there() {
    let options = FireWorkOptions { titanium: true, manganese: true, iron: false };
    let mut session = Session { state: AppState::Launch, options };
    assert_eq!(session.update(&[MenuEvent::Toggled(Metal::Titanium)]), None);
    assert_eq!(session, Session { state: AppState::Launch, options });
    assert_eq!(session.view(), vec![]);
}
