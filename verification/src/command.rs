//! The command line of the client: which request a sub-command and its
//! arguments stand for.

use vstd::prelude::*;
use vstd::string::StringExecFns;
use crate::profile::Profile;
use crate::text::str_eq;

verus! {

/// A graphics mode that the client can ask for.
#[derive(Clone, Copy, Debug, PartialEq, Eq, Structural)]
pub enum GraphicsMode {
    Compute,
    Hybrid,
    Integrated,
    Nvidia,
}

impl GraphicsMode {
    /// The vendor name that the client hands to the service.
    pub open spec fn name_spec(self) -> Seq<char> {
        match self {
            GraphicsMode::Compute => "compute"@,
            GraphicsMode::Hybrid => "hybrid"@,
            GraphicsMode::Integrated => "integrated"@,
            GraphicsMode::Nvidia => "nvidia"@,
        }
    }

    pub fn name(&self) -> (s: &'static str)
        ensures
            s@ == self.name_spec(),
    {
        match self {
            GraphicsMode::Compute => "compute",
            GraphicsMode::Hybrid => "hybrid",
            GraphicsMode::Integrated => "integrated",
            GraphicsMode::Nvidia => "nvidia",
        }
    }
}

/// What the client is asked to do.
#[derive(Clone, Copy, Debug, PartialEq, Eq, Structural)]
pub enum ClientCommand {
    /// Switch the service to a profile.
    SetProfile(Profile),
    /// Print the profile in force, the CPU limits and the backlights.
    ShowProfile,
    /// Switch the graphics mode.
    SetGraphics(GraphicsMode),
    /// Print whether the graphics can be switched.
    ShowSwitchable,
    /// Let the discrete graphics power off when not in use.
    AutoGraphicsPower,
    /// Power the discrete graphics on (`true`) or off.
    SetGraphicsPower(bool),
    /// Print whether the discrete graphics are powered.
    ShowGraphicsPower,
    /// Print the graphics mode.
    ShowGraphics,
}

pub open spec fn opt_view(o: Option<&str>) -> Option<Seq<char>> {
    match o {
        Some(s) => Some(s@),
        None => None,
    }
}

pub open spec fn opt_opt_view(o: Option<Option<&str>>) -> Option<Option<Seq<char>>> {
    match o {
        Some(inner) => Some(opt_view(inner)),
        None => None,
    }
}

/// `profile [balanced|battery|performance]`: any other value, or none, shows the profile.
pub open spec fn profile_command_spec(value: Option<Seq<char>>) -> ClientCommand {
    match value {
        Some(v) => if v == "balanced"@ {
            ClientCommand::SetProfile(Profile::Balanced)
        } else if v == "battery"@ {
            ClientCommand::SetProfile(Profile::Battery)
        } else if v == "performance"@ {
            ClientCommand::SetProfile(Profile::Performance)
        } else {
            ClientCommand::ShowProfile
        },
        None => ClientCommand::ShowProfile,
    }
}

/// `graphics power [auto|off|on]`: any other state, or none, shows the power.
pub open spec fn power_command_spec(state: Option<Seq<char>>) -> ClientCommand {
    match state {
        Some(v) => if v == "auto"@ {
            ClientCommand::AutoGraphicsPower
        } else if v == "off"@ {
            ClientCommand::SetGraphicsPower(false)
        } else if v == "on"@ {
            ClientCommand::SetGraphicsPower(true)
        } else {
            ClientCommand::ShowGraphicsPower
        },
        None => ClientCommand::ShowGraphicsPower,
    }
}

/// `graphics <sub>`: `sub_state` is `None` when the sub-command came without
/// argument matches, else the value of its `state` argument. A `power`
/// sub-command without argument matches, like any unknown one, shows the
/// graphics mode.
pub open spec fn graphics_command_spec(sub: Seq<char>, sub_state: Option<Option<Seq<char>>>) -> ClientCommand {
    if sub == "compute"@ {
        ClientCommand::SetGraphics(GraphicsMode::Compute)
    } else if sub == "hybrid"@ {
        ClientCommand::SetGraphics(GraphicsMode::Hybrid)
    } else if sub == "integrated"@ || sub == "intel"@ {
        ClientCommand::SetGraphics(GraphicsMode::Integrated)
    } else if sub == "nvidia"@ {
        ClientCommand::SetGraphics(GraphicsMode::Nvidia)
    } else if sub == "switchable"@ {
        ClientCommand::ShowSwitchable
    } else if sub == "power"@ && sub_state is Some {
        power_command_spec(sub_state->0)
    } else {
        ClientCommand::ShowGraphics
    }
}

/// The request for a sub-command of the client, or the error text of an unknown one.
pub open spec fn client_command_spec(
    subcommand: Seq<char>,
    profile: Option<Seq<char>>,
    graphics: Seq<char>,
    graphics_state: Option<Option<Seq<char>>>,
) -> Result<ClientCommand, Seq<char>> {
    if subcommand == "profile"@ {
        Ok(profile_command_spec(profile))
    } else if subcommand == "graphics"@ {
        Ok(graphics_command_spec(graphics, graphics_state))
    } else {
        Err("unknown sub-command "@ + subcommand)
    }
}

/// The argument matches of a graphics sub-command only matter for `power`:
/// `compute`, `hybrid`, `integrated` (or `intel`) and `nvidia` switch to that
/// mode and `switchable` asks whether switching is possible, whatever the
/// `profile` value and the argument matches are.
pub proof fn lemma_graphics_modes_ignore_matches(
    profile: Option<Seq<char>>,
    state: Option<Option<Seq<char>>>,
    other: Option<Option<Seq<char>>>,
    sub: Seq<char>,
)
    ensures
        sub != "power"@ ==> graphics_command_spec(sub, state) == graphics_command_spec(sub, other),
        client_command_spec("graphics"@, profile, "compute"@, state)
            == Ok::<ClientCommand, Seq<char>>(ClientCommand::SetGraphics(GraphicsMode::Compute)),
        client_command_spec("graphics"@, profile, "hybrid"@, state)
            == Ok::<ClientCommand, Seq<char>>(ClientCommand::SetGraphics(GraphicsMode::Hybrid)),
        client_command_spec("graphics"@, profile, "integrated"@, state)
            == Ok::<ClientCommand, Seq<char>>(ClientCommand::SetGraphics(GraphicsMode::Integrated)),
        client_command_spec("graphics"@, profile, "intel"@, state)
            == Ok::<ClientCommand, Seq<char>>(ClientCommand::SetGraphics(GraphicsMode::Integrated)),
        client_command_spec("graphics"@, profile, "nvidia"@, state)
            == Ok::<ClientCommand, Seq<char>>(ClientCommand::SetGraphics(GraphicsMode::Nvidia)),
        client_command_spec("graphics"@, profile, "switchable"@, state)
            == Ok::<ClientCommand, Seq<char>>(ClientCommand::ShowSwitchable),
{
    reveal_strlit("graphics");
    reveal_strlit("profile");
    reveal_strlit("compute");
    reveal_strlit("hybrid");
    reveal_strlit("integrated");
    reveal_strlit("intel");
    reveal_strlit("nvidia");
    reveal_strlit("switchable");
    assert("graphics"@[0] != "profile"@[0]);
    assert("hybrid"@[0] != "compute"@[0]);
    assert("integrated"@[0] != "compute"@[0]);
    assert("integrated"@[0] != "hybrid"@[0]);
    assert("intel"@[0] != "compute"@[0]);
    assert("intel"@[0] != "hybrid"@[0]);
    assert("intel"@.len() != "integrated"@.len());
    assert("nvidia"@[0] != "compute"@[0]);
    assert("nvidia"@[0] != "hybrid"@[0]);
    assert("nvidia"@[0] != "integrated"@[0]);
    assert("nvidia"@[0] != "intel"@[0]);
    assert("switchable"@[0] != "compute"@[0]);
    assert("switchable"@[0] != "hybrid"@[0]);
    assert("switchable"@[0] != "integrated"@[0]);
    assert("switchable"@[0] != "intel"@[0]);
    assert("switchable"@[0] != "nvidia"@[0]);
}

fn profile_command(value: Option<&str>) -> (c: ClientCommand)
    ensures
        c == profile_command_spec(opt_view(value)),
{
    match value {
        Some(v) => if str_eq(v, "balanced") {
            ClientCommand::SetProfile(Profile::Balanced)
        } else if str_eq(v, "battery") {
            ClientCommand::SetProfile(Profile::Battery)
        } else if str_eq(v, "performance") {
            ClientCommand::SetProfile(Profile::Performance)
        } else {
            ClientCommand::ShowProfile
        },
        None => ClientCommand::ShowProfile,
    }
}

fn power_command(state: Option<&str>) -> (c: ClientCommand)
    ensures
        c == power_command_spec(opt_view(state)),
{
    match state {
        Some(v) => if str_eq(v, "auto") {
            ClientCommand::AutoGraphicsPower
        } else if str_eq(v, "off") {
            ClientCommand::SetGraphicsPower(false)
        } else if str_eq(v, "on") {
            ClientCommand::SetGraphicsPower(true)
        } else {
            ClientCommand::ShowGraphicsPower
        },
        None => ClientCommand::ShowGraphicsPower,
    }
}

fn graphics_command(sub: &str, sub_state: Option<Option<&str>>) -> (c: ClientCommand)
    ensures
        c == graphics_command_spec(sub@, opt_opt_view(sub_state)),
{
    if str_eq(sub, "compute") {
        ClientCommand::SetGraphics(GraphicsMode::Compute)
    } else if str_eq(sub, "hybrid") {
        ClientCommand::SetGraphics(GraphicsMode::Hybrid)
    } else if str_eq(sub, "integrated") || str_eq(sub, "intel") {
        ClientCommand::SetGraphics(GraphicsMode::Integrated)
    } else if str_eq(sub, "nvidia") {
        ClientCommand::SetGraphics(GraphicsMode::Nvidia)
    } else if str_eq(sub, "switchable") {
        ClientCommand::ShowSwitchable
    } else {
        match sub_state {
            Some(state) => if str_eq(sub, "power") {
                power_command(state)
            } else {
                ClientCommand::ShowGraphics
            },
            None => ClientCommand::ShowGraphics,
        }
    }
}

/// The request that a sub-command of the client stands for. `profile` is the
/// value of the `profile` argument, `graphics` the name of the graphics
/// sub-command (empty when there is none) and `graphics_state` its argument
/// matches, by the value of their `state` argument.
pub fn client_command(
    subcommand: &str,
    profile: Option<&str>,
    graphics: &str,
    graphics_state: Option<Option<&str>>,
) -> (res: Result<ClientCommand, String>)
    ensures
        res matches Ok(c) ==> client_command_spec(subcommand@, opt_view(profile), graphics@, opt_opt_view(graphics_state)) == Ok::<ClientCommand, Seq<char>>(c),
        res matches Err(e) ==> client_command_spec(subcommand@, opt_view(profile), graphics@, opt_opt_view(graphics_state)) == Err::<ClientCommand, Seq<char>>(e@),
{
    if str_eq(subcommand, "profile") {
        Ok(profile_command(profile))
    } else if str_eq(subcommand, "graphics") {
        Ok(graphics_command(graphics, graphics_state))
    } else {
        Err(String::from_str("unknown sub-command ").concat(subcommand))
    }
}

} // verus!
