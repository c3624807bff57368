//! The service's process-wide switches: whether its main loop goes on, and
//! whether runtime power management of PCI devices was asked for.

use vstd::prelude::*;
use crate::text::str_eq;

verus! {

/// Whether the value of the environment variable `S76_POWER_PCI_RUNTIME_PM`
/// (`None` when it is unset or not Unicode) asks for PCI runtime power management:
/// it does when it is exactly `1`.
pub fn pci_runtime_pm_requested(value: Option<&str>) -> (b: bool)
    ensures
        b == (value matches Some(v) && v@ == "1"@),
{
    match value {
        Some(v) => str_eq(v, "1"),
        None => false,
    }
}

/// The process-wide switches of the service.
pub struct DaemonFlags {
    running: bool,
    pci_runtime_pm: bool,
}

pub struct DaemonFlagsView {
    pub running: bool,
    pub pci_runtime_pm: bool,
}

impl View for DaemonFlags {
    type V = DaemonFlagsView;

    closed spec fn view(&self) -> DaemonFlagsView {
        DaemonFlagsView { running: self.running, pci_runtime_pm: self.pci_runtime_pm }
    }
}

impl DaemonFlags {
    /// The switches at start-up, given the value of `S76_POWER_PCI_RUNTIME_PM`.
    pub fn new(pci_runtime_pm_env: Option<&str>) -> (f: Self)
        ensures
            f@.running,
            f@.pci_runtime_pm == (pci_runtime_pm_env matches Some(v) && v@ == "1"@),
    {
        DaemonFlags { running: true, pci_runtime_pm: pci_runtime_pm_requested(pci_runtime_pm_env) }
    }

    /// A termination signal was caught: the main loop ends at its next turn.
    pub fn stop(&mut self)
        ensures
            !final(self)@.running,
            final(self)@.pci_runtime_pm == old(self)@.pci_runtime_pm,
    {
        self.running = false;
    }

    /// Whether the main loop goes on.
    pub fn keep_running(&self) -> (b: bool)
        ensures
            b == self@.running,
    {
        self.running
    }
}

/// Whether runtime power management of PCI devices is enabled.
pub fn pci_runtime_pm_support(flags: &DaemonFlags) -> (b: bool)
    ensures
        b == flags@.pci_runtime_pm,
{
    flags.pci_runtime_pm
}

} // verus!
