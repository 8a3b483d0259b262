//! The menu: what it shows for a given options record, and what it makes of
//! the user's clicks.

use vstd::prelude::*;
use crate::options::{metal_name, FireWorkOptions, Metal};
use crate::state::AppState;

verus! {

/// One of the four panels of the menu.
#[derive(Clone, Copy, Debug, PartialEq, Eq, Hash, Structural)]
pub enum Panel {
    /// The header with the title.
    Header,
    /// The side panel with the metals.
    Options,
    /// The footer with the launch button.
    Launch,
    /// What is left of the window, empty while the menu is up.
    Center,
}

/// Where a panel sits in the window.
#[derive(Clone, Copy, Debug, PartialEq, Eq, Hash, Structural)]
pub enum Dock {
    Top,
    Left,
    Bottom,
    /// The panel fills what the docked panels leave.
    Fill,
}

/// One control or text of the menu.
#[derive(Clone, Copy, Debug, PartialEq, Eq, Hash, Structural)]
pub enum Widget {
    /// The title, a text.
    Title,
    /// The text above the metals.
    OptionsLabel,
    /// The checkbox of one metal, with the state that it shows.
    MetalCheckbox { metal: Metal, checked: bool },
    /// The button that launches the firework.
    LaunchButton,
}

/// What the user did to a control of the menu.
#[derive(Clone, Copy, Debug, PartialEq, Eq, Hash, Structural)]
pub enum MenuEvent {
    /// The checkbox of this metal was clicked.
    Toggled(Metal),
    /// The launch button was clicked.
    LaunchPressed,
}

/// The panels of the menu, in the order in which they are laid out.
pub open spec fn panel_order() -> Seq<Panel> {
    seq![Panel::Header, Panel::Options, Panel::Launch, Panel::Center]
}

/// Where a panel sits in the window.
pub open spec fn panel_dock(panel: Panel) -> Dock {
    match panel {
        Panel::Header => Dock::Top,
        Panel::Options => Dock::Left,
        Panel::Launch => Dock::Bottom,
        Panel::Center => Dock::Fill,
    }
}

/// The name that tells a docked panel from the others. The panel that fills
/// the rest has none.
pub open spec fn panel_id(panel: Panel) -> Option<Seq<char>> {
    match panel {
        Panel::Header => Some("Header"@),
        Panel::Options => Some("Options"@),
        Panel::Launch => Some("Launch"@),
        Panel::Center => None,
    }
}

/// The widgets of a panel from top to bottom, for a given options record.
pub open spec fn panel_widgets(panel: Panel, options: FireWorkOptions) -> Seq<Widget> {
    match panel {
        Panel::Header => seq![Widget::Title],
        Panel::Options => seq![
            Widget::OptionsLabel,
            Widget::MetalCheckbox { metal: Metal::Titanium, checked: options.titanium },
            Widget::MetalCheckbox { metal: Metal::Manganese, checked: options.manganese },
            Widget::MetalCheckbox { metal: Metal::Iron, checked: options.iron },
        ],
        Panel::Launch => seq![Widget::LaunchButton],
        Panel::Center => Seq::empty(),
    }
}

/// The text that a widget shows.
pub open spec fn widget_text(widget: Widget) -> Seq<char> {
    match widget {
        Widget::Title => "Firework maker!"@,
        Widget::OptionsLabel => "Metal Options:"@,
        Widget::MetalCheckbox { metal, checked } => metal_name(metal),
        Widget::LaunchButton => "Launch Firework!"@,
    }
}

/// What a click on a widget means: nothing for a text.
pub open spec fn widget_event(widget: Widget) -> Option<MenuEvent> {
    match widget {
        Widget::Title => None,
        Widget::OptionsLabel => None,
        Widget::MetalCheckbox { metal, checked } => Some(MenuEvent::Toggled(metal)),
        Widget::LaunchButton => Some(MenuEvent::LaunchPressed),
    }
}

/// How often the checkbox of `metal` was clicked in `events`.
pub open spec fn toggles(events: Seq<MenuEvent>, metal: Metal) -> nat
    decreases events.len(),
{
    if events.len() == 0 {
        0
    } else {
        let before = toggles(events.drop_last(), metal);
        if events.last() == MenuEvent::Toggled(metal) {
            before + 1
        } else {
            before
        }
    }
}

/// Whether the launch button was clicked in `events`.
pub open spec fn launch_pressed(events: Seq<MenuEvent>) -> bool {
    events.contains(MenuEvent::LaunchPressed)
}

impl FireWorkOptions {
    /// The record after the clicks in `events`: a flag has changed where its
    /// checkbox was clicked an odd number of times.
    pub open spec fn after(self, events: Seq<MenuEvent>) -> FireWorkOptions {
        FireWorkOptions {
            titanium: self.titanium != (toggles(events, Metal::Titanium) % 2 == 1),
            manganese: self.manganese != (toggles(events, Metal::Manganese) % 2 == 1),
            iron: self.iron != (toggles(events, Metal::Iron) % 2 == 1),
        }
    }
}

impl Panel {
    /// Where the panel sits in the window.
    pub fn dock(self) -> (dock: Dock)
        ensures
            dock == panel_dock(self),
    {
        match self {
            Panel::Header => Dock::Top,
            Panel::Options => Dock::Left,
            Panel::Launch => Dock::Bottom,
            Panel::Center => Dock::Fill,
        }
    }

    /// The name that tells a docked panel from the others. The panel that
    /// fills the rest has none.
    pub fn id(self) -> (id: Option<&'static str>)
        ensures
            (match id {
                Some(name) => panel_id(self) == Some(name@),
                None => panel_id(self) is None,
            }),
    {
        match self {
            Panel::Header => Some("Header"),
            Panel::Options => Some("Options"),
            Panel::Launch => Some("Launch"),
            Panel::Center => None,
        }
    }

    /// The widgets of the panel from top to bottom. Each checkbox shows the
    /// flag of its metal in `options`.
    pub fn widgets(self, options: &FireWorkOptions) -> (widgets: Vec<Widget>)
        ensures
            widgets@ == panel_widgets(self, *options),
    {
        let widgets = match self {
            Panel::Header => vec![Widget::Title],
            Panel::Options => vec![
                Widget::OptionsLabel,
                Widget::MetalCheckbox { metal: Metal::Titanium, checked: options.titanium },
                Widget::MetalCheckbox { metal: Metal::Manganese, checked: options.manganese },
                Widget::MetalCheckbox { metal: Metal::Iron, checked: options.iron },
            ],
            Panel::Launch => vec![Widget::LaunchButton],
            Panel::Center => Vec::new(),
        };
        assert(widgets@ =~= panel_widgets(self, *options));
        widgets
    }
}

impl Widget {
    /// The text that the widget shows.
    pub fn text(self) -> (text: &'static str)
        ensures
            text@ == widget_text(self),
    {
        match self {
            Widget::Title => "Firework maker!",
            Widget::OptionsLabel => "Metal Options:",
            Widget::MetalCheckbox { metal, checked } => metal.name(),
            Widget::LaunchButton => "Launch Firework!",
        }
    }

    /// What a click on the widget means: nothing for a text.
    pub fn event(self) -> (event: Option<MenuEvent>)
        ensures
            event == widget_event(self),
    {
        match self {
            Widget::Title => None,
            Widget::OptionsLabel => None,
            Widget::MetalCheckbox { metal, checked } => Some(MenuEvent::Toggled(metal)),
            Widget::LaunchButton => Some(MenuEvent::LaunchPressed),
        }
    }
}

/// The panels of the menu, in the order in which they are laid out: the
/// header, the options, the footer, and last what fills the rest.
pub fn menu_panels() -> (panels: Vec<Panel>)
    ensures
        panels@ == panel_order(),
{
    let panels = vec![Panel::Header, Panel::Options, Panel::Launch, Panel::Center];
    assert(panels@ =~= panel_order());
    panels
}

/// One frame of the menu: takes the clicks of the frame, in `events`, and
/// applies them.
///
/// Each click on a checkbox flips the flag of its metal in `fw_options`. If
/// the launch button was clicked, the result asks for the launch, once,
/// however often it was clicked. Nothing else is ever asked for.
pub fn main_menu(fw_options: &mut FireWorkOptions, events: &[MenuEvent]) -> (request: Option<
    AppState,
>)
    ensures
        *final(fw_options) == old(fw_options).after(events@),
        request == (if launch_pressed(events@) {
            Some(AppState::Launch)
        } else {
            None
        }),
{
    let mut request: Option<AppState> = None;
    let mut i: usize = 0;
    while i < events.len()
        invariant
            i <= events@.len(),
            *fw_options == old(fw_options).after(events@.take(i as int)),
            request == (if launch_pressed(events@.take(i as int)) {
                Some(AppState::Launch)
            } else {
                None
            }),
        decreases events@.len() - i,
    {
        proof {
            assert(events@.take(i + 1) =~= events@.take(i as int).push(events@[i as int]));
            lemma_after_push(*old(fw_options), events@.take(i as int), events@[i as int]);
            lemma_launch_pressed_push(events@.take(i as int), events@[i as int]);
        }
        match events[i] {
            MenuEvent::Toggled(metal) => {
                fw_options.toggle(metal);
            },
            MenuEvent::LaunchPressed => {
                request = Some(AppState::Launch);
            },
        }
        i += 1;
    }
    assert(events@.take(i as int) =~= events@);
    request
}

/// A frame without clicks leaves the options as they are.
pub proof fn lemma_after_none(options: FireWorkOptions)
    ensures
        options.after(Seq::empty()) == options,
{
}

/// One more click at the end of a frame: on a checkbox it toggles the metal
/// in what the clicks before it have made of the options, on the launch
/// button it changes no flag.
pub proof fn lemma_after_push(options: FireWorkOptions, events: Seq<MenuEvent>, event: MenuEvent)
    ensures
        options.after(events.push(event)) == (match event {
            MenuEvent::Toggled(metal) => options.after(events).toggled(metal),
            MenuEvent::LaunchPressed => options.after(events),
        }),
{
    let all = events.push(event);
    assert(all.drop_last() =~= events);
    assert(all.last() == event);
    assert forall|metal: Metal|
        toggles(all, metal) == toggles(events, metal) + (if event == MenuEvent::Toggled(metal) {
            1nat
        } else {
            0nat
        }) by {}
}

/// One more click at the end of a frame: the launch button is among the
/// clicks if it was before, or if this click is on it.
pub proof fn lemma_launch_pressed_push(events: Seq<MenuEvent>, event: MenuEvent)
    ensures
        launch_pressed(events.push(event)) == (launch_pressed(events) || event
            == MenuEvent::LaunchPressed),
{
    let all = events.push(event);
    if launch_pressed(events) {
        let k = choose|k: int| 0 <= k < events.len() && events[k] == MenuEvent::LaunchPressed;
        assert(all[k] == MenuEvent::LaunchPressed);
    }
    if event == MenuEvent::LaunchPressed {
        assert(all[events.len() as int] == MenuEvent::LaunchPressed);
    }
}

} // verus!
