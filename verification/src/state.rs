//! Application state: the screen-mode state machine driven by the three
//! buttons, the chosen LED mode, and the display brightness level.

use vstd::prelude::*;
use crate::buttons::ButtonEvent;
use crate::led_strip::LedMode;

verus! {

/// The two regular screens.
#[derive(Clone, Copy, Debug, PartialEq, Eq, Structural)]
pub enum TimeDateScreen {
    Time,
    Date,
}

impl TimeDateScreen {
    /// The other screen; left and right both toggle.
    pub open spec fn spec_toggle(self) -> TimeDateScreen {
        match self {
            TimeDateScreen::Time => TimeDateScreen::Date,
            TimeDateScreen::Date => TimeDateScreen::Time,
        }
    }

    pub fn left(self) -> (r: TimeDateScreen)
        ensures
            r == self.spec_toggle(),
    {
        match self {
            TimeDateScreen::Time => TimeDateScreen::Date,
            TimeDateScreen::Date => TimeDateScreen::Time,
        }
    }

    pub fn right(self) -> (r: TimeDateScreen)
        ensures
            r == self.spec_toggle(),
    {
        match self {
            TimeDateScreen::Time => TimeDateScreen::Date,
            TimeDateScreen::Date => TimeDateScreen::Time,
        }
    }
}

/// All choices of the main menu.
#[derive(Clone, Copy, Debug, PartialEq, Eq, Structural)]
pub enum MenuOption {
    /// Set time and date.
    SetTime,
    /// Set alarm settings.
    SetAlarm,
    /// Change behaviour of the LED strip.
    SetRgb,
    /// Set brightness of the displays.
    SetBrightness,
    /// View temperature, humidity and pressure.
    TempHumidity,
    /// Return to the regular mode.
    Return,
}

impl MenuOption {
    /// The position of this entry in menu order.
    pub open spec fn index(self) -> int {
        match self {
            MenuOption::SetTime => 0,
            MenuOption::SetAlarm => 1,
            MenuOption::SetRgb => 2,
            MenuOption::SetBrightness => 3,
            MenuOption::TempHumidity => 4,
            MenuOption::Return => 5,
        }
    }

    /// The entry to the left, cyclically.
    pub open spec fn spec_left(self) -> MenuOption {
        match self {
            MenuOption::SetTime => MenuOption::Return,
            MenuOption::SetAlarm => MenuOption::SetTime,
            MenuOption::SetRgb => MenuOption::SetAlarm,
            MenuOption::SetBrightness => MenuOption::SetRgb,
            MenuOption::TempHumidity => MenuOption::SetBrightness,
            MenuOption::Return => MenuOption::TempHumidity,
        }
    }

    /// The entry to the right, cyclically.
    pub open spec fn spec_right(self) -> MenuOption {
        match self {
            MenuOption::SetTime => MenuOption::SetAlarm,
            MenuOption::SetAlarm => MenuOption::SetRgb,
            MenuOption::SetRgb => MenuOption::SetBrightness,
            MenuOption::SetBrightness => MenuOption::TempHumidity,
            MenuOption::TempHumidity => MenuOption::Return,
            MenuOption::Return => MenuOption::SetTime,
        }
    }

    pub fn left(self) -> (r: MenuOption)
        ensures
            r == self.spec_left(),
    {
        match self {
            MenuOption::SetTime => MenuOption::Return,
            MenuOption::SetAlarm => MenuOption::SetTime,
            MenuOption::SetRgb => MenuOption::SetAlarm,
            MenuOption::SetBrightness => MenuOption::SetRgb,
            MenuOption::TempHumidity => MenuOption::SetBrightness,
            MenuOption::Return => MenuOption::TempHumidity,
        }
    }

    pub fn right(self) -> (r: MenuOption)
        ensures
            r == self.spec_right(),
    {
        match self {
            MenuOption::SetTime => MenuOption::SetAlarm,
            MenuOption::SetAlarm => MenuOption::SetRgb,
            MenuOption::SetRgb => MenuOption::SetBrightness,
            MenuOption::SetBrightness => MenuOption::TempHumidity,
            MenuOption::TempHumidity => MenuOption::Return,
            MenuOption::Return => MenuOption::SetTime,
        }
    }

    /// All entries in menu order.
    pub fn all() -> (v: Vec<MenuOption>)
        ensures
            v@ == all_options(),
    {
        let v = vec![
            MenuOption::SetTime,
            MenuOption::SetAlarm,
            MenuOption::SetRgb,
            MenuOption::SetBrightness,
            MenuOption::TempHumidity,
            MenuOption::Return,
        ];
        proof {
            assert(v@ =~= all_options());
        }
        v
    }
}

/// The menu entries in order.
pub open spec fn all_options() -> Seq<MenuOption> {
    seq![
        MenuOption::SetTime,
        MenuOption::SetAlarm,
        MenuOption::SetRgb,
        MenuOption::SetBrightness,
        MenuOption::TempHumidity,
        MenuOption::Return,
    ]
}

/// Walking left and then right through the menu, or right and then left,
/// comes back to the starting entry.
pub proof fn lemma_menu_cycle(m: MenuOption)
    ensures
        m.spec_left().spec_right() == m,
        m.spec_right().spec_left() == m,
{
}

/// All screens the application can show.
#[derive(Clone, Copy, Debug, PartialEq, Eq, Structural)]
pub enum AppMode {
    Regular(TimeDateScreen),
    Menu(MenuOption),
    SetTime(usize),
    SetAlarm(usize),
    SetRgb,
    SetBrightness,
    TempHumidity,
}

/// The value of the application state.
pub ghost struct StateView {
    /// The mode before the last transition, kept so that the drawing code
    /// can redraw only what changed.
    pub last_mode: AppMode,
    pub mode: AppMode,
    pub led_mode: LedMode,
    /// Display brightness level, 0 through 9.
    pub brightness: u32,
    /// Whether a transition happened since the flag was last consumed.
    pub transition: bool,
    pub is_mode_down: bool,
    pub lr_pressed_while_mode_down: bool,
    /// A pending time or date adjustment: the setter screen index and the
    /// direction of the change.
    pub time_delta: Option<(usize, i32)>,
}

/// A setter index stays within the twelve setter screens.
pub open spec fn mode_wf(mode: AppMode) -> bool {
    match mode {
        AppMode::SetTime(i) => i <= 11,
        AppMode::SetAlarm(i) => i <= 11,
        _ => true,
    }
}

/// The screen a menu entry opens when chosen.
pub open spec fn menu_target(menu: MenuOption) -> AppMode {
    match menu {
        MenuOption::Return => AppMode::Regular(TimeDateScreen::Time),
        MenuOption::SetTime => AppMode::SetTime(0),
        MenuOption::SetAlarm => AppMode::SetAlarm(0),
        MenuOption::SetRgb => AppMode::SetRgb,
        MenuOption::SetBrightness => AppMode::SetBrightness,
        MenuOption::TempHumidity => AppMode::TempHumidity,
    }
}

/// One step of a time or date setter screen: while the mode button is held,
/// left and right queue an adjustment; otherwise they move the selection,
/// wrapping at the twelve positions; releasing the mode button without
/// having adjusted returns to the regular screen.
pub open spec fn setter_step(
    s: StateView,
    is_time: bool,
    idx: usize,
    m: bool,
    l: bool,
    r: bool,
) -> StateView {
    let s = if s.is_mode_down {
        if l {
            StateView { time_delta: Some((idx, -1i32)), lr_pressed_while_mode_down: true, ..s }
        } else if r {
            StateView { time_delta: Some((idx, 1i32)), lr_pressed_while_mode_down: true, ..s }
        } else {
            s
        }
    } else if l {
        let ni: usize = if idx == 0 {
            11
        } else {
            (idx - 1) as usize
        };
        StateView {
            mode: if is_time {
                AppMode::SetTime(ni)
            } else {
                AppMode::SetAlarm(ni)
            },
            transition: true,
            ..s
        }
    } else if r {
        let ni: usize = if idx == 11 {
            0
        } else {
            (idx + 1) as usize
        };
        StateView {
            mode: if is_time {
                AppMode::SetTime(ni)
            } else {
                AppMode::SetAlarm(ni)
            },
            transition: true,
            ..s
        }
    } else {
        s
    };
    if m && !s.lr_pressed_while_mode_down {
        StateView { mode: AppMode::Regular(TimeDateScreen::Time), transition: true, ..s }
    } else {
        s
    }
}

/// One step of the whole state machine on the three button events.
pub open spec fn state_step(
    s: StateView,
    m_ev: Option<ButtonEvent>,
    l_ev: Option<ButtonEvent>,
    r_ev: Option<ButtonEvent>,
) -> StateView {
    let s = StateView { last_mode: s.mode, ..s };
    let s = if m_ev == Some(ButtonEvent::Release) {
        StateView { is_mode_down: false, ..s }
    } else if m_ev == Some(ButtonEvent::Press) {
        StateView { is_mode_down: true, lr_pressed_while_mode_down: false, ..s }
    } else {
        s
    };
    let m = m_ev == Some(ButtonEvent::Release);
    let l = l_ev == Some(ButtonEvent::Release);
    let r = r_ev == Some(ButtonEvent::Release);
    match s.mode {
        AppMode::Regular(screen) => if m {
            StateView { mode: AppMode::Menu(MenuOption::Return), transition: true, ..s }
        } else if l {
            StateView { mode: AppMode::Regular(screen.spec_toggle()), transition: true, ..s }
        } else if r {
            StateView { mode: AppMode::Regular(screen.spec_toggle()), transition: true, ..s }
        } else {
            s
        },
        AppMode::Menu(menu) => if m {
            StateView { mode: menu_target(menu), transition: true, ..s }
        } else if l {
            StateView { mode: AppMode::Menu(menu.spec_left()), transition: true, ..s }
        } else if r {
            StateView { mode: AppMode::Menu(menu.spec_right()), transition: true, ..s }
        } else {
            s
        },
        AppMode::SetTime(idx) => setter_step(s, true, idx, m, l, r),
        AppMode::SetAlarm(idx) => setter_step(s, false, idx, m, l, r),
        AppMode::SetRgb => {
            let s = if l {
                StateView { led_mode: s.led_mode.spec_left(), transition: true, ..s }
            } else if r {
                StateView { led_mode: s.led_mode.spec_right(), transition: true, ..s }
            } else {
                s
            };
            if m {
                StateView { mode: AppMode::Regular(TimeDateScreen::Time), transition: true, ..s }
            } else {
                s
            }
        },
        AppMode::SetBrightness => {
            let s = if l {
                StateView {
                    brightness: if s.brightness == 0 {
                        0u32
                    } else {
                        (s.brightness - 1) as u32
                    },
                    transition: true,
                    ..s
                }
            } else if r {
                StateView {
                    brightness: if s.brightness >= 9 {
                        9u32
                    } else {
                        (s.brightness + 1) as u32
                    },
                    transition: true,
                    ..s
                }
            } else {
                s
            };
            if m {
                StateView { mode: AppMode::Regular(TimeDateScreen::Time), transition: true, ..s }
            } else {
                s
            }
        },
        AppMode::TempHumidity => s,
    }
}

/// The state a fresh application starts in.
pub open spec fn initial_state(brightness: u32) -> StateView {
    StateView {
        last_mode: AppMode::Regular(TimeDateScreen::Time),
        mode: AppMode::Regular(TimeDateScreen::Time),
        led_mode: LedMode::Sin,
        brightness,
        transition: true,
        is_mode_down: false,
        lr_pressed_while_mode_down: false,
        time_delta: None,
    }
}

/// The application state: everything that changes on user input.
pub struct State {
    last_mode: AppMode,
    mode: AppMode,
    led_mode: LedMode,
    brightness: u32,
    transition: bool,
    is_mode_down: bool,
    lr_pressed_while_mode_down: bool,
    time_delta: Option<(usize, i32)>,
}

impl View for State {
    type V = StateView;

    closed spec fn view(&self) -> StateView {
        StateView {
            last_mode: self.last_mode,
            mode: self.mode,
            led_mode: self.led_mode,
            brightness: self.brightness,
            transition: self.transition,
            is_mode_down: self.is_mode_down,
            lr_pressed_while_mode_down: self.lr_pressed_while_mode_down,
            time_delta: self.time_delta,
        }
    }
}

impl State {
    pub fn new(brightness: u32) -> (s: State)
        ensures
            s@ == initial_state(brightness),
    {
        State {
            last_mode: AppMode::Regular(TimeDateScreen::Time),
            mode: AppMode::Regular(TimeDateScreen::Time),
            led_mode: LedMode::Sin,
            brightness,
            transition: true,
            is_mode_down: false,
            lr_pressed_while_mode_down: false,
            time_delta: None,
        }
    }

    /// Consume the pending time or date adjustment, if any.
    pub fn take_time_delta(&mut self) -> (r: Option<(usize, i32)>)
        ensures
            r == old(self)@.time_delta,
            final(self)@ == (StateView { time_delta: None, ..old(self)@ }),
    {
        self.time_delta.take()
    }

    /// The chosen LED strip mode.
    pub fn led_mode(&self) -> (r: LedMode)
        ensures
            r == self@.led_mode,
    {
        self.led_mode
    }

    pub fn last_mode(&self) -> (r: AppMode)
        ensures
            r == self@.last_mode,
    {
        self.last_mode
    }

    pub fn mode(&self) -> (r: AppMode)
        ensures
            r == self@.mode,
    {
        self.mode
    }

    pub fn brightness(&self) -> (r: u32)
        ensures
            r == self@.brightness,
    {
        self.brightness
    }

    /// Consume the transition flag.
    pub fn eat_transition(&mut self) -> (r: bool)
        ensures
            r == old(self)@.transition,
            final(self)@ == (StateView { transition: false, ..old(self)@ }),
    {
        let result = self.transition;
        self.transition = false;
        result
    }

    /// Apply one round of button events to the state machine.
    ///
    /// The temperature screen is not implemented and must not be stepped.
    pub fn handle_buttons(
        &mut self,
        mode: Option<ButtonEvent>,
        left: Option<ButtonEvent>,
        right: Option<ButtonEvent>,
    )
        requires
            !(old(self)@.mode is TempHumidity),
            mode_wf(old(self)@.mode),
        ensures
            final(self)@ == state_step(old(self)@, mode, left, right),
            mode_wf(final(self)@.mode),
    {
        self.last_mode = self.mode;

        match mode {
            Some(ButtonEvent::Release) => {
                self.is_mode_down = false;
            },
            Some(ButtonEvent::Press) => {
                self.is_mode_down = true;
                self.lr_pressed_while_mode_down = false;
            },
            _ => {},
        }

        let m = matches!(mode, Some(ButtonEvent::Release));
        let l = matches!(left, Some(ButtonEvent::Release));
        let r = matches!(right, Some(ButtonEvent::Release));
        match self.mode {
            AppMode::Regular(screen) => {
                if m {
                    self.mode = AppMode::Menu(MenuOption::Return);
                    self.transition = true;
                } else if l {
                    self.mode = AppMode::Regular(screen.left());
                    self.transition = true;
                } else if r {
                    self.mode = AppMode::Regular(screen.right());
                    self.transition = true;
                }
            },
            AppMode::Menu(menu) => {
                if m {
                    self.mode = match menu {
                        MenuOption::Return => AppMode::Regular(TimeDateScreen::Time),
                        MenuOption::SetTime => AppMode::SetTime(0),
                        MenuOption::SetAlarm => AppMode::SetAlarm(0),
                        MenuOption::SetRgb => AppMode::SetRgb,
                        MenuOption::SetBrightness => AppMode::SetBrightness,
                        MenuOption::TempHumidity => AppMode::TempHumidity,
                    };
                    self.transition = true;
                } else if l {
                    self.mode = AppMode::Menu(menu.left());
                    self.transition = true;
                } else if r {
                    self.mode = AppMode::Menu(menu.right());
                    self.transition = true;
                }
            },
            AppMode::SetTime(idx) => {
                if self.is_mode_down {
                    if l {
                        self.time_delta = Some((idx, -1));
                        self.lr_pressed_while_mode_down = true;
                    } else if r {
                        self.time_delta = Some((idx, 1));
                        self.lr_pressed_while_mode_down = true;
                    }
                } else if l {
                    let ni: usize = if idx == 0 {
                        11
                    } else {
                        idx - 1
                    };
                    self.mode = AppMode::SetTime(ni);
                    self.transition = true;
                } else if r {
                    let ni: usize = if idx == 11 {
                        0
                    } else {
                        idx + 1
                    };
                    self.mode = AppMode::SetTime(ni);
                    self.transition = true;
                }
                if m && !self.lr_pressed_while_mode_down {
                    self.mode = AppMode::Regular(TimeDateScreen::Time);
                    self.transition = true;
                }
            },
            AppMode::SetAlarm(idx) => {
                if self.is_mode_down {
                    if l {
                        self.time_delta = Some((idx, -1));
                        self.lr_pressed_while_mode_down = true;
                    } else if r {
                        self.time_delta = Some((idx, 1));
                        self.lr_pressed_while_mode_down = true;
                    }
                } else if l {
                    let ni: usize = if idx == 0 {
                        11
                    } else {
                        idx - 1
                    };
                    self.mode = AppMode::SetAlarm(ni);
                    self.transition = true;
                } else if r {
                    let ni: usize = if idx == 11 {
                        0
                    } else {
                        idx + 1
                    };
                    self.mode = AppMode::SetAlarm(ni);
                    self.transition = true;
                }
                if m && !self.lr_pressed_while_mode_down {
                    self.mode = AppMode::Regular(TimeDateScreen::Time);
                    self.transition = true;
                }
            },
            AppMode::SetRgb => {
                if l {
                    self.led_mode = self.led_mode.left();
                    self.transition = true;
                } else if r {
                    self.led_mode = self.led_mode.right();
                    self.transition = true;
                }
                if m {
                    self.mode = AppMode::Regular(TimeDateScreen::Time);
                    self.transition = true;
                }
            },
            AppMode::SetBrightness => {
                if l {
                    self.brightness = if self.brightness == 0 {
                        0
                    } else {
                        self.brightness - 1
                    };
                    self.transition = true;
                } else if r {
                    self.brightness = if self.brightness >= 9 {
                        9
                    } else {
                        self.brightness + 1
                    };
                    self.transition = true;
                }
                if m {
                    self.mode = AppMode::Regular(TimeDateScreen::Time);
                    self.transition = true;
                }
            },
            AppMode::TempHumidity => {},
        }
    }
}

} // verus!
