use system76_power::dbus_api::{daemon_method, PowerMethod};
use system76_power::hotplug::{hotplug_events, hotplug_state, HotplugMonitor};
use system76_power::service::{pci_runtime_pm_requested, pci_runtime_pm_support, DaemonFlags};
use system76_power::{DBUS_IFACE, DBUS_NAME, DBUS_PATH};

#[test]
fn hotplug_reports_rising_lines_only() {
    assert_eq!(hotplug_events(&[false, false, false, false], &[true, false, true, false]), vec![0, 2]);
    assert_eq!(hotplug_events(&[true, false, true, false], &[false, false, true, true]), vec![3]);
    assert_eq!(hotplug_events(&[true, true, true, true], &[false, false, false, false]), Vec::<u64>::new());
}

#[test]
fn hotplug_unchanged_lines_report_nothing() {
    let s = [true, false, true, true];
    assert_eq!(hotplug_events(&s, &s), Vec::<u64>::new());
}

#[test]
fn hotplug_without_detector_is_all_down() {
    assert_eq!(hotplug_state(None), [false; 4]);
    assert_eq!(hotplug_state(Some([true, false, false, true])), [true, false, false, true]);
}

#[test]
fn pci_runtime_pm_only_for_one() {
    assert!(pci_runtime_pm_requested(Some("1")));
    assert!(!pci_runtime_pm_requested(Some("0")));
    assert!(!pci_runtime_pm_requested(Some("1 ")));
    assert!(!pci_runtime_pm_requested(Some("")));
    assert!(!pci_runtime_pm_requested(None));
}

#[test]
fn daemon_flags() {
    let mut flags = DaemonFlags::new(Some("1"));
    assert!(flags.keep_running());
    assert!(pci_runtime_pm_support(&flags));
    flags.stop();
    assert!(!flags.keep_running());
    assert!(pci_runtime_pm_support(&flags));
    let flags = DaemonFlags::new(None);
    assert!(!pci_runtime_pm_support(&flags));
}

#[test]
fn registered_methods_are_found_by_name() {
    let served = [
        PowerMethod::Test,
        PowerMethod::Performance,
        PowerMethod::Balanced,
        PowerMethod::Battery,
        PowerMethod::GetGraphics,
        PowerMethod::GetProfile,
        PowerMethod::GetSwitchable,
        PowerMethod::GetGraphicsPower,
        PowerMethod::SetGraphicsPower,
    ];
    for m in served.iter() {
        assert_eq!(daemon_method(m.name()), Some(*m));
    }
    assert_eq!(daemon_method(PowerMethod::SetGraphics.name()), None);
    assert_eq!(daemon_method(PowerMethod::AutoGraphicsPower.name()), None);
    assert_eq!(daemon_method("GetProfiles"), None);
    assert_eq!(PowerMethod::GetGraphicsPower.name(), "GetGraphicsPower");
}

#[test]
fn dbus_identity() {
    assert_eq!(DBUS_NAME, "com.system76.PowerDaemon");
    assert_eq!(DBUS_PATH, "/com/system76/PowerDaemon");
    assert_eq!(DBUS_IFACE, "com.system76.PowerDaemon");
}

#[test]
fn hotplug_monitor_remembers_the_last_sample() {
    let mut monitor = HotplugMonitor::new([false, false, false, false]);
    assert_eq!(monitor.step([false, true, false, false]), vec![1]);
    assert_eq!(monitor.step([false, true, false, false]), Vec::<u64>::new());
    assert_eq!(monitor.step([true, false, false, false]), vec![0]);
    assert_eq!(monitor.step([true, true, true, true]), vec![1, 2, 3]);
}
