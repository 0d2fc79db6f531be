use vstd::prelude::*;
use crate::registry::DeviceRegistry;

verus! {

/// The foreground loop's own state: which row of the device list is selected.
pub struct AppState {
    selected_index: usize,
}

impl AppState {
    /// The first row selected.
    pub fn new() -> (r: AppState)
        ensures
            r.selected() == 0,
    {
        AppState { selected_index: 0 }
    }

    /// The selected row.
    pub closed spec fn selected(&self) -> nat {
        self.selected_index as nat
    }

    /// The selected row.
    pub fn selected_index(&self) -> (i: usize)
        ensures
            i == self.selected(),
    {
        self.selected_index
    }

    /// Moves the selection one row down, from the last row back to the first;
    /// an empty list leaves it where it is.
    pub fn select_next(&mut self, registry: &DeviceRegistry)
        ensures
            registry@.len() > 0 ==> final(self).selected() == (old(self).selected() + 1)
                % registry@.len(),
            registry@.len() == 0 ==> final(self).selected() == old(self).selected(),
    {
        let len = registry.len();
        if len > 0 {
            self.selected_index = ((self.selected_index as u128 + 1) % (len as u128)) as usize;
        }
    }

    /// Moves the selection one row up, from the first row to the last; an
    /// empty list leaves it where it is.
    pub fn select_previous(&mut self, registry: &DeviceRegistry)
        ensures
            registry@.len() > 0 ==> final(self).selected() == (if old(self).selected() == 0 {
                (registry@.len() - 1) as nat
            } else {
                (old(self).selected() - 1) as nat
            }),
            registry@.len() == 0 ==> final(self).selected() == old(self).selected(),
    {
        let len = registry.len();
        if len > 0 {
            self.selected_index = if self.selected_index == 0 {
                len - 1
            } else {
                self.selected_index - 1
            };
        }
    }

    /// Selects the last row.
    pub fn reset_index(&mut self, registry: &DeviceRegistry)
        requires
            registry@.len() > 0,
        ensures
            final(self).selected() == registry@.len() - 1,
    {
        self.selected_index = registry.len() - 1;
    }
}

/// What the user asks for.
#[derive(Clone, Copy, Debug, PartialEq, Eq, Structural)]
pub enum Command {
    Quit,
    TogglePower,
    Scan,
    SelectPrevious,
    SelectNext,
    ToggleConnect,
    Pair,
    ToggleTrust,
    Forget,
}

/// The command bound to a character key, either case.
pub fn command_for_key(c: char) -> (r: Option<Command>)
    ensures
        r == (if c == 'q' || c == 'Q' {
            Some(Command::Quit)
        } else if c == 'o' || c == 'O' {
            Some(Command::TogglePower)
        } else if c == 's' || c == 'S' {
            Some(Command::Scan)
        } else if c == 'k' || c == 'K' {
            Some(Command::SelectPrevious)
        } else if c == 'j' || c == 'J' {
            Some(Command::SelectNext)
        } else if c == 'c' || c == 'C' {
            Some(Command::ToggleConnect)
        } else if c == 'p' || c == 'P' {
            Some(Command::Pair)
        } else if c == 't' || c == 'T' {
            Some(Command::ToggleTrust)
        } else if c == 'f' || c == 'F' {
            Some(Command::Forget)
        } else {
            None
        }),
{
    if c == 'q' || c == 'Q' {
        Some(Command::Quit)
    } else if c == 'o' || c == 'O' {
        Some(Command::TogglePower)
    } else if c == 's' || c == 'S' {
        Some(Command::Scan)
    } else if c == 'k' || c == 'K' {
        Some(Command::SelectPrevious)
    } else if c == 'j' || c == 'J' {
        Some(Command::SelectNext)
    } else if c == 'c' || c == 'C' {
        Some(Command::ToggleConnect)
    } else if c == 'p' || c == 'P' {
        Some(Command::Pair)
    } else if c == 't' || c == 'T' {
        Some(Command::ToggleTrust)
    } else if c == 'f' || c == 'F' {
        Some(Command::Forget)
    } else {
        None
    }
}

/// What the foreground loop does next.
#[derive(Clone, Debug, PartialEq, Eq)]
pub enum Action {
    /// Nothing to do.
    Nothing,
    /// Leave the loop, first cancelling the running scan when there is one.
    Quit { cancel_scan: bool },
    /// Switch the adapter on or off.
    TogglePower,
    /// Start a scan session.
    StartScan,
    SelectPrevious,
    SelectNext,
    /// Toggle-connect the device with this address.
    ToggleConnect(String),
    /// Pair the device with this address.
    Pair(String),
    /// Flip the trust flag of the device with this address.
    ToggleTrust(String),
    /// Forget the device with this address.
    Forget(String),
}

/// The command acts on the selected device.
pub open spec fn is_device_command(cmd: Command) -> bool {
    cmd == Command::ToggleConnect || cmd == Command::Pair || cmd == Command::ToggleTrust || cmd
        == Command::Forget
}

/// Decides what a command does. A scan starts only when none runs and the
/// adapter is on; the device commands need the adapter on and a selected row,
/// and act on that row's address; quitting cancels a running scan.
pub fn decide(
    cmd: Command,
    state: &AppState,
    registry: &DeviceRegistry,
    powered: bool,
    scanning: bool,
) -> (r: Action)
    ensures
        cmd == Command::Quit ==> r == (Action::Quit { cancel_scan: scanning }),
        cmd == Command::TogglePower ==> r == Action::TogglePower,
        cmd == Command::Scan ==> r == (if !scanning && powered {
            Action::StartScan
        } else {
            Action::Nothing
        }),
        cmd == Command::SelectPrevious ==> r == Action::SelectPrevious,
        cmd == Command::SelectNext ==> r == Action::SelectNext,
        is_device_command(cmd) && !(powered && state.selected() < registry@.len()) ==> r
            == Action::Nothing,
        is_device_command(cmd) && powered && state.selected() < registry@.len() ==> {
            let a = registry@[state.selected() as int].address;
            match r {
                Action::ToggleConnect(s) => cmd == Command::ToggleConnect && s@ == a,
                Action::Pair(s) => cmd == Command::Pair && s@ == a,
                Action::ToggleTrust(s) => cmd == Command::ToggleTrust && s@ == a,
                Action::Forget(s) => cmd == Command::Forget && s@ == a,
                _ => false,
            }
        },
{
    match cmd {
        Command::Quit => Action::Quit { cancel_scan: scanning },
        Command::TogglePower => Action::TogglePower,
        Command::Scan => {
            if !scanning && powered {
                Action::StartScan
            } else {
                Action::Nothing
            }
        },
        Command::SelectPrevious => Action::SelectPrevious,
        Command::SelectNext => Action::SelectNext,
        _ => {
            let i = state.selected_index();
            if !powered || i >= registry.len() {
                return Action::Nothing;
            }
            let address = registry.get(i).address.clone();
            match cmd {
                Command::ToggleConnect => Action::ToggleConnect(address),
                Command::Pair => Action::Pair(address),
                Command::ToggleTrust => Action::ToggleTrust(address),
                _ => Action::Forget(address),
            }
        },
    }
}

} // verus!
