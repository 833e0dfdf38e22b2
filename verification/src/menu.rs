//! The menu: a ring of pages, each of which can be entered to adjust its
//! setting.

use vstd::prelude::*;
use crate::state::State;

verus! {

/// Where the user is in the menu: on one of six pages, or inside a page,
/// adjusting its setting.
#[derive(Clone, Copy, Debug, PartialEq, Eq, Structural)]
pub enum MenuPosition {
    Main,
    Peak,
    PeakSelect,
    Area,
    AreaSelect,
    Duration,
    DurationSelect,
    Intensity,
    IntensitySelect,
    Cooldown,
    CooldownSelect,
}

impl Default for MenuPosition {
    fn default() -> (position: Self)
        ensures
            position == MenuPosition::Main,
    {
        MenuPosition::Main
    }
}

impl MenuPosition {
    /// Whether the position is inside a page, where turning the knob adjusts
    /// the page's setting.
    pub open spec fn adjusting(self) -> bool {
        match self {
            MenuPosition::PeakSelect
            | MenuPosition::AreaSelect
            | MenuPosition::DurationSelect
            | MenuPosition::IntensitySelect
            | MenuPosition::CooldownSelect => true,
            _ => false,
        }
    }

    /// The position one turn forward: the next page in the ring of pages;
    /// inside a page the position stays.
    pub open spec fn forward(self) -> MenuPosition {
        match self {
            MenuPosition::Main => MenuPosition::Peak,
            MenuPosition::Peak => MenuPosition::Area,
            MenuPosition::Area => MenuPosition::Duration,
            MenuPosition::Duration => MenuPosition::Cooldown,
            MenuPosition::Cooldown => MenuPosition::Intensity,
            MenuPosition::Intensity => MenuPosition::Main,
            p => p,
        }
    }

    /// The position one turn backward: the previous page in the ring of
    /// pages; inside a page the position stays.
    pub open spec fn backward(self) -> MenuPosition {
        match self {
            MenuPosition::Main => MenuPosition::Intensity,
            MenuPosition::Peak => MenuPosition::Main,
            MenuPosition::Area => MenuPosition::Peak,
            MenuPosition::Duration => MenuPosition::Area,
            MenuPosition::Cooldown => MenuPosition::Duration,
            MenuPosition::Intensity => MenuPosition::Cooldown,
            p => p,
        }
    }

    /// The position after a click: into a page or out of it. The main page
    /// has no inside, and the intensity page is entered only while the
    /// actuator is connected.
    pub open spec fn clicked(self, state: State) -> MenuPosition {
        match self {
            MenuPosition::Main => MenuPosition::Main,
            MenuPosition::Peak => MenuPosition::PeakSelect,
            MenuPosition::Area => MenuPosition::AreaSelect,
            MenuPosition::Duration => MenuPosition::DurationSelect,
            MenuPosition::Cooldown => MenuPosition::CooldownSelect,
            MenuPosition::Intensity => if state.ble_connected {
                MenuPosition::IntensitySelect
            } else {
                MenuPosition::Intensity
            },
            MenuPosition::PeakSelect => MenuPosition::Peak,
            MenuPosition::AreaSelect => MenuPosition::Area,
            MenuPosition::DurationSelect => MenuPosition::Duration,
            MenuPosition::CooldownSelect => MenuPosition::Cooldown,
            MenuPosition::IntensitySelect => MenuPosition::Intensity,
        }
    }

    /// The settings after one turn forward at this position: inside a page
    /// its setting goes up by one step.
    pub open spec fn raise(self, state: State) -> State {
        match self {
            MenuPosition::PeakSelect => state.after_peak_up(),
            MenuPosition::AreaSelect => state.after_area_up(),
            MenuPosition::DurationSelect => state.after_duration_up(),
            MenuPosition::IntensitySelect => state.after_intensity_up(),
            MenuPosition::CooldownSelect => state.after_cooldown_up(),
            _ => state,
        }
    }

    /// The settings after one turn backward at this position: inside a page
    /// its setting goes down by one step.
    pub open spec fn lower(self, state: State) -> State {
        match self {
            MenuPosition::PeakSelect => state.after_peak_down(),
            MenuPosition::AreaSelect => state.after_area_down(),
            MenuPosition::DurationSelect => state.after_duration_down(),
            MenuPosition::IntensitySelect => state.after_intensity_down(),
            MenuPosition::CooldownSelect => state.after_cooldown_down(),
            _ => state,
        }
    }

    /// The settings after a click at this position: on the main page
    /// automatic control is switched over; entering the intensity page starts
    /// stimulation by hand and leaving it stops it.
    pub open spec fn press(self, state: State) -> State {
        match self {
            MenuPosition::Main => state.after_toggle(),
            MenuPosition::Intensity => if state.ble_connected {
                state.after_start_stim_manual()
            } else {
                state
            },
            MenuPosition::IntensitySelect => state.after_stop_stim_manual(),
            _ => state,
        }
    }

    /// Forward and backward walk the same ring of pages in opposite
    /// directions.
    pub proof fn lemma_turns_cancel(self)
        ensures
            self.forward().backward() == self,
            self.backward().forward() == self,
    {
    }

    /// Turning the knob never enters or leaves a page, and clicking always
    /// does, except on the main page and on the intensity page while the
    /// actuator is away.
    pub proof fn lemma_only_clicks_change_level(self, state: State)
        ensures
            self.forward().adjusting() == self.adjusting(),
            self.backward().adjusting() == self.adjusting(),
            self.clicked(state).adjusting() != self.adjusting() <==> !(self == MenuPosition::Main
                || (self == MenuPosition::Intensity && !state.ble_connected)),
    {
    }
}

/// The menu the user walks with the knob.
pub struct Menu {
    pub position: MenuPosition,
}

impl Default for Menu {
    fn default() -> (menu: Self)
        ensures
            menu.position == MenuPosition::Main,
    {
        Menu { position: MenuPosition::default() }
    }
}

impl Menu {
    /// One turn of the knob against the clock.
    pub fn backward(&mut self, state: &mut State)
        ensures
            final(self).position == old(self).position.backward(),
            *final(state) == old(self).position.lower(*old(state)),
    {
        self.position = match self.position {
            MenuPosition::Main => MenuPosition::Intensity,
            MenuPosition::Peak => MenuPosition::Main,
            MenuPosition::Area => MenuPosition::Peak,
            MenuPosition::Duration => MenuPosition::Area,
            MenuPosition::Cooldown => MenuPosition::Duration,
            MenuPosition::Intensity => MenuPosition::Cooldown,
            MenuPosition::PeakSelect => {
                state.peak_down();
                MenuPosition::PeakSelect
            },
            MenuPosition::AreaSelect => {
                state.area_down();
                MenuPosition::AreaSelect
            },
            MenuPosition::DurationSelect => {
                state.duration_down();
                MenuPosition::DurationSelect
            },
            MenuPosition::IntensitySelect => {
                state.intensity_down();
                MenuPosition::IntensitySelect
            },
            MenuPosition::CooldownSelect => {
                state.cooldown_down();
                MenuPosition::CooldownSelect
            },
        }
    }

    /// One turn of the knob with the clock.
    pub fn foward(&mut self, state: &mut State)
        ensures
            final(self).position == old(self).position.forward(),
            *final(state) == old(self).position.raise(*old(state)),
    {
        self.position = match self.position {
            MenuPosition::Main => MenuPosition::Peak,
            MenuPosition::Peak => MenuPosition::Area,
            MenuPosition::Area => MenuPosition::Duration,
            MenuPosition::Duration => MenuPosition::Cooldown,
            MenuPosition::Cooldown => MenuPosition::Intensity,
            MenuPosition::Intensity => MenuPosition::Main,
            MenuPosition::PeakSelect => {
                state.peak_up();
                MenuPosition::PeakSelect
            },
            MenuPosition::AreaSelect => {
                state.area_up();
                MenuPosition::AreaSelect
            },
            MenuPosition::DurationSelect => {
                state.duration_up();
                MenuPosition::DurationSelect
            },
            MenuPosition::IntensitySelect => {
                state.intensity_up();
                MenuPosition::IntensitySelect
            },
            MenuPosition::CooldownSelect => {
                state.cooldown_up();
                MenuPosition::CooldownSelect
            },
        }
    }

    /// One press of the knob.
    pub fn click(&mut self, state: &mut State)
        ensures
            final(self).position == old(self).position.clicked(*old(state)),
            *final(state) == old(self).position.press(*old(state)),
    {
        self.position = match self.position {
            MenuPosition::Main => {
                state.toggle();
                MenuPosition::Main
            },
            MenuPosition::Peak => MenuPosition::PeakSelect,
            MenuPosition::Area => MenuPosition::AreaSelect,
            MenuPosition::Duration => MenuPosition::DurationSelect,
            MenuPosition::Cooldown => MenuPosition::CooldownSelect,
            MenuPosition::Intensity => {
                if state.ble_connected {
                    state.start_stim_manual();
                    MenuPosition::IntensitySelect
                } else {
                    MenuPosition::Intensity
                }
            },
            MenuPosition::PeakSelect => MenuPosition::Peak,
            MenuPosition::AreaSelect => MenuPosition::Area,
            MenuPosition::DurationSelect => MenuPosition::Duration,
            MenuPosition::CooldownSelect => MenuPosition::Cooldown,
            MenuPosition::IntensitySelect => {
                state.stop_stim_manual();
                MenuPosition::Intensity
            },
        }
    }
}

} // verus!
