//! The tray menu that starts and stops the tracking service and turns its
//! start with Windows on and off.

use vstd::prelude::*;

verus! {

/// Which menu items can be clicked (the settings item always can).
#[derive(Clone, Copy, Debug, PartialEq, Eq, Structural)]
pub struct TrayMenu {
    pub start: bool,
    pub stop: bool,
    pub enable_run: bool,
    pub disable_run: bool,
}

/// A click on a menu item.
#[derive(Clone, Copy, Debug, PartialEq, Eq, Structural)]
pub enum MenuChoice {
    Settings,
    Stop,
    Start,
    EnableRun,
    DisableRun,
}

/// What the tray does for a click.
#[derive(Clone, Copy, Debug, PartialEq, Eq, Structural)]
pub enum TrayAction {
    /// Open the configuration file in an editor.
    OpenSettings,
    /// Stop every running tracking service.
    StopService,
    /// Launch the tracking service.
    StartService,
    /// Register the service to run when the user logs in.
    RegisterRunOnStart,
    /// Remove that registration.
    RemoveRunOnStart,
}

impl TrayMenu {
    /// Of each pair of opposite items exactly one can be clicked.
    pub open spec fn wf(self) -> bool {
        &&& self.start != self.stop
        &&& self.enable_run != self.disable_run
    }

    /// The menu at start-up: start or stop by whether the service runs;
    /// "enable" off and "disable" on.
    pub fn new(service_running: bool) -> (m: TrayMenu)
        ensures
            m == (TrayMenu { start: !service_running, stop: service_running, enable_run: false, disable_run: true }),
            m.wf(),
    {
        TrayMenu { start: !service_running, stop: service_running, enable_run: false, disable_run: true }
    }

    /// The menu brought in line with what runs and what is registered.
    pub fn refresh(&mut self, service_running: bool, run_on_start: bool)
        ensures
            *final(self) == (TrayMenu {
                start: !service_running,
                stop: service_running,
                enable_run: !run_on_start,
                disable_run: run_on_start,
            }),
            final(self).wf(),
    {
        self.start = !service_running;
        self.stop = service_running;
        self.enable_run = !run_on_start;
        self.disable_run = run_on_start;
    }

    /// What a click does: the action to take, and the menu after it.
    pub fn click(&mut self, choice: MenuChoice) -> (a: TrayAction)
        ensures
            old(self).wf() ==> final(self).wf(),
            match choice {
                MenuChoice::Settings => a == TrayAction::OpenSettings && *final(self) == *old(self),
                MenuChoice::Stop => a == TrayAction::StopService
                    && *final(self) == (TrayMenu { start: true, stop: false, ..*old(self) }),
                MenuChoice::Start => a == TrayAction::StartService
                    && *final(self) == (TrayMenu { start: false, stop: true, ..*old(self) }),
                MenuChoice::EnableRun => a == TrayAction::RegisterRunOnStart
                    && *final(self) == (TrayMenu { enable_run: false, disable_run: true, ..*old(self) }),
                MenuChoice::DisableRun => a == TrayAction::RemoveRunOnStart
                    && *final(self) == (TrayMenu { enable_run: true, disable_run: false, ..*old(self) }),
            },
    {
        match choice {
            MenuChoice::Settings => TrayAction::OpenSettings,
            MenuChoice::Stop => {
                self.start = true;
                self.stop = false;
                TrayAction::StopService
            },
            MenuChoice::Start => {
                self.start = false;
                self.stop = true;
                TrayAction::StartService
            },
            MenuChoice::EnableRun => {
                self.enable_run = false;
                self.disable_run = true;
                TrayAction::RegisterRunOnStart
            },
            MenuChoice::DisableRun => {
                self.enable_run = true;
                self.disable_run = false;
                TrayAction::RemoveRunOnStart
            },
        }
    }
}

} // verus!
