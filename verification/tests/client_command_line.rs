use system76_power::command::{client_command, ClientCommand, GraphicsMode};
use system76_power::profile::Profile;
use system76_power::report::{
    auto_graphics_power_message, backlight_line, cpu_line, graphics_power_report, keyboard_backlight_line,
    profile_line, set_graphics_message, set_graphics_power_message, set_profile_message, switchable_report,
};

#[test]
fn profile_sub_command() {
    assert_eq!(client_command("profile", Some("balanced"), "", None), Ok(ClientCommand::SetProfile(Profile::Balanced)));
    assert_eq!(client_command("profile", Some("battery"), "", None), Ok(ClientCommand::SetProfile(Profile::Battery)));
    assert_eq!(
        client_command("profile", Some("performance"), "", None),
        Ok(ClientCommand::SetProfile(Profile::Performance))
    );
    assert_eq!(client_command("profile", None, "", None), Ok(ClientCommand::ShowProfile));
    assert_eq!(client_command("profile", Some("Balanced"), "", None), Ok(ClientCommand::ShowProfile));
}

#[test]
fn graphics_sub_command() {
    assert_eq!(
        client_command("graphics", None, "compute", Some(None)),
        Ok(ClientCommand::SetGraphics(GraphicsMode::Compute))
    );
    assert_eq!(
        client_command("graphics", None, "hybrid", Some(None)),
        Ok(ClientCommand::SetGraphics(GraphicsMode::Hybrid))
    );
    assert_eq!(
        client_command("graphics", None, "intel", Some(None)),
        Ok(ClientCommand::SetGraphics(GraphicsMode::Integrated))
    );
    assert_eq!(
        client_command("graphics", None, "integrated", None),
        Ok(ClientCommand::SetGraphics(GraphicsMode::Integrated))
    );
    assert_eq!(
        client_command("graphics", None, "nvidia", Some(None)),
        Ok(ClientCommand::SetGraphics(GraphicsMode::Nvidia))
    );
    assert_eq!(client_command("graphics", None, "switchable", Some(None)), Ok(ClientCommand::ShowSwitchable));
    assert_eq!(client_command("graphics", None, "", None), Ok(ClientCommand::ShowGraphics));
    assert_eq!(client_command("graphics", None, "other", Some(Some("on"))), Ok(ClientCommand::ShowGraphics));
}

#[test]
fn graphics_power_sub_command() {
    assert_eq!(client_command("graphics", None, "power", Some(Some("auto"))), Ok(ClientCommand::AutoGraphicsPower));
    assert_eq!(
        client_command("graphics", None, "power", Some(Some("off"))),
        Ok(ClientCommand::SetGraphicsPower(false))
    );
    assert_eq!(client_command("graphics", None, "power", Some(Some("on"))), Ok(ClientCommand::SetGraphicsPower(true)));
    assert_eq!(client_command("graphics", None, "power", Some(None)), Ok(ClientCommand::ShowGraphicsPower));
    assert_eq!(client_command("graphics", None, "power", Some(Some("On"))), Ok(ClientCommand::ShowGraphicsPower));
    assert_eq!(client_command("graphics", None, "power", None), Ok(ClientCommand::ShowGraphics));
}

#[test]
fn unknown_sub_command() {
    assert_eq!(client_command("fan", None, "", None), Err("unknown sub-command fan".to_string()));
    assert_eq!(client_command("", Some("battery"), "", None), Err("unknown sub-command ".to_string()));
}

#[test]
fn graphics_mode_names() {
    assert_eq!(GraphicsMode::Compute.name(), "compute");
    assert_eq!(GraphicsMode::Hybrid.name(), "hybrid");
    assert_eq!(GraphicsMode::Integrated.name(), "integrated");
    assert_eq!(GraphicsMode::Nvidia.name(), "nvidia");
}

#[test]
fn client_messages() {
    assert_eq!(set_profile_message(Profile::Battery), "setting power profile to Battery");
    assert_eq!(set_graphics_message(GraphicsMode::Integrated.name()), "setting graphics to integrated");
    assert_eq!(set_graphics_power_message(true), "turning discrete graphics on");
    assert_eq!(set_graphics_power_message(false), "turning discrete graphics off");
    assert_eq!(auto_graphics_power_message(), "setting discrete graphics to turn off when not in use");
    assert_eq!(switchable_report(true), "switchable");
    assert_eq!(switchable_report(false), "not switchable");
    assert_eq!(graphics_power_report(true), "on (discrete)");
    assert_eq!(graphics_power_report(false), "off (discrete)");
}

#[test]
fn profile_status_lines() {
    assert_eq!(profile_line(Some("Balanced")), "Power Profile: Balanced");
    assert_eq!(profile_line(None), "Power Profile: ?");
    assert_eq!(cpu_line(20, 100, false), "CPU: 20% - 100%, Turbo");
    assert_eq!(cpu_line(0, 255, true), "CPU: 0% - 255%, No Turbo");
    assert_eq!(backlight_line("intel_backlight", 600, 1200, 50), "Backlight intel_backlight: 600/1200 = 50%");
    assert_eq!(
        keyboard_backlight_line("system76::kbd_backlight", 0, 255, 0),
        "Keyboard Backlight system76::kbd_backlight: 0/255 = 0%"
    );
}
