//! The demo as a whole: its mode and its options, from frame to frame.

use vstd::prelude::*;
use crate::launch::{firework_launch, LaunchPlan};
use crate::menu::{
    launch_pressed, main_menu, menu_panels, panel_order, toggles, MenuEvent, Panel,
};
use crate::options::{FireWorkOptions, Metal};
use crate::state::AppState;

verus! {

/// The state of the demo between two frames.
#[derive(Clone, Copy, Debug, PartialEq, Eq, Hash, Structural)]
pub struct Session {
    pub state: AppState,
    pub options: FireWorkOptions,
}

impl Session {
    /// The demo before its first frame: in the menu, with no metal selected.
    pub open spec fn start() -> Session {
        Session { state: AppState::Builder, options: FireWorkOptions::none_selected() }
    }

    /// Whether a frame with the clicks `events` launches the firework: the
    /// menu is up and the launch button is among the clicks.
    pub open spec fn launches(self, events: Seq<MenuEvent>) -> bool {
        self.state == AppState::Builder && launch_pressed(events)
    }

    /// The session after a frame with the clicks `events`. While the menu is
    /// up the clicks are applied; after the launch nothing changes any more.
    pub open spec fn step(self, events: Seq<MenuEvent>) -> Session {
        match self.state {
            AppState::Builder => Session {
                state: if launch_pressed(events) {
                    AppState::Launch
                } else {
                    AppState::Builder
                },
                options: self.options.after(events),
            },
            AppState::Launch => self,
        }
    }

    /// The session after the frames in `frames`, each with its clicks.
    pub open spec fn run(self, frames: Seq<Seq<MenuEvent>>) -> Session
        decreases frames.len(),
    {
        if frames.len() == 0 {
            self
        } else {
            self.run(frames.drop_last()).step(frames.last())
        }
    }

    /// How many of the frames in `frames` launch the firework.
    pub open spec fn launch_count(self, frames: Seq<Seq<MenuEvent>>) -> nat
        decreases frames.len(),
    {
        if frames.len() == 0 {
            0
        } else {
            let before = self.launch_count(frames.drop_last());
            if self.run(frames.drop_last()).launches(frames.last()) {
                before + 1
            } else {
                before
            }
        }
    }

    /// The panels that a session shows: those of the menu while it is up,
    /// none after the launch.
    pub open spec fn panels(self) -> Seq<Panel> {
        match self.state {
            AppState::Builder => panel_order(),
            AppState::Launch => Seq::empty(),
        }
    }

    /// The demo before its first frame: in the menu, with no metal selected.
    pub fn new() -> (session: Session)
        ensures
            session == Session::start(),
    {
        Session { state: AppState::default(), options: FireWorkOptions::default() }
    }

    /// The panels to draw in this frame: those of the menu while it is up,
    /// none after the launch.
    pub fn view(&self) -> (panels: Vec<Panel>)
        ensures
            panels@ == self.panels(),
    {
        if self.state.runs_menu() {
            menu_panels()
        } else {
            Vec::new()
        }
    }

    /// One frame of the demo, with the clicks that the drawn panels have
    /// received.
    ///
    /// While the menu is up, the clicks are applied to the options, and a
    /// click on the launch button ends the menu: the result is then the plan
    /// of the launch, for the caller to carry out. After the launch the clicks
    /// are passed over and no further plan is made.
    pub fn update(&mut self, events: &[MenuEvent]) -> (launch: Option<LaunchPlan>)
        ensures
            *final(self) == old(self).step(events@),
            launch is Some <==> old(self).launches(events@),
            launch matches Some(plan) ==> plan.is_firework(),
    {
        if !self.state.runs_menu() {
            return None;
        }
        match main_menu(&mut self.options, events) {
            Some(AppState::Launch) => {
                self.state = AppState::Launch;
                Some(firework_launch())
            },
            _ => None,
        }
    }
}

impl Default for Session {
    /// The demo before its first frame.
    fn default() -> (session: Session)
        ensures
            session == Session::start(),
    {
        Session::new()
    }
}

/// A frame never takes the demo back from the launch to the menu.
pub proof fn lemma_step_never_goes_back(session: Session, events: Seq<MenuEvent>)
    ensures
        session.step(events).state.rank() >= session.state.rank(),
{
}

/// The launch is final: whatever is clicked in later frames, neither the mode
/// nor the options change, and nothing is launched again.
pub proof fn lemma_launch_is_final(session: Session, frames: Seq<Seq<MenuEvent>>)
    requires
        session.state == AppState::Launch,
    ensures
        session.run(frames) == session,
        session.launch_count(frames) == 0,
    decreases frames.len(),
{
    if frames.len() > 0 {
        lemma_launch_is_final(session, frames.drop_last());
    }
}

/// From the menu, the demo is in the launch after some frames exactly if the
/// launch button was clicked in one of them.
pub proof fn lemma_launched_by_press(session: Session, frames: Seq<Seq<MenuEvent>>)
    requires
        session.state == AppState::Builder,
    ensures
        session.run(frames).state == AppState::Launch <==> exists|i: int|
            0 <= i < frames.len() && launch_pressed(#[trigger] frames[i]),
    decreases frames.len(),
{
    if frames.len() > 0 {
        let earlier = frames.drop_last();
        lemma_launched_by_press(session, earlier);
        if session.run(frames).state == AppState::Launch {
            if session.run(earlier).state == AppState::Launch {
                let i = choose|i: int| 0 <= i < earlier.len() && launch_pressed(#[trigger] earlier[i]);
                assert(launch_pressed(frames[i]));
            } else {
                assert(launch_pressed(frames[frames.len() - 1]));
            }
        }
        if exists|i: int| 0 <= i < frames.len() && launch_pressed(#[trigger] frames[i]) {
            let i = choose|i: int| 0 <= i < frames.len() && launch_pressed(#[trigger] frames[i]);
            if i < earlier.len() {
                assert(launch_pressed(earlier[i]));
            }
        }
    }
}

/// The firework is launched once at most: exactly once where the frames take
/// the demo from the menu to the launch, and never otherwise.
pub proof fn lemma_launches_once(session: Session, frames: Seq<Seq<MenuEvent>>)
    ensures
        session.launch_count(frames) == (if session.state == AppState::Builder && session.run(
            frames,
        ).state == AppState::Launch {
            1nat
        } else {
            0nat
        }),
    decreases frames.len(),
{
    if session.state == AppState::Launch {
        lemma_launch_is_final(session, frames);
    } else if frames.len() > 0 {
        let earlier = frames.drop_last();
        lemma_launches_once(session, earlier);
        assert(session.run(frames) == session.run(earlier).step(frames.last()));
        assert(session.launch_count(frames) == session.launch_count(earlier) + (if session.run(
            earlier,
        ).launches(frames.last()) {
            1nat
        } else {
            0nat
        }));
    }
}

/// A frame of the menu leaves the flag of each metal whose checkbox was not
/// clicked as it is.
pub proof fn lemma_menu_keeps_untouched_flags(session: Session, events: Seq<MenuEvent>)
    requires
        session.state == AppState::Builder,
    ensures
        forall|metal: Metal|
            toggles(events, metal) == 0 ==> session.step(events).options.flag(metal)
                == session.options.flag(metal),
{
}

} // verus!
