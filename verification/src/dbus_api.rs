//! The methods of the service's D-Bus interface, by name: those the client
//! calls and those the service answers.

use vstd::prelude::*;
use crate::text::str_eq;
use crate::profile::Profile;

verus! {

/// A method of the `com.system76.PowerDaemon` interface.
#[derive(Clone, Copy, Debug, PartialEq, Eq, Structural)]
pub enum PowerMethod {
    Test,
    Performance,
    Balanced,
    Battery,
    GetGraphics,
    GetProfile,
    GetSwitchable,
    SetGraphics,
    GetGraphicsPower,
    SetGraphicsPower,
    AutoGraphicsPower,
}

impl PowerMethod {
    pub open spec fn name_spec(self) -> Seq<char> {
        match self {
            PowerMethod::Test => "Test"@,
            PowerMethod::Performance => "Performance"@,
            PowerMethod::Balanced => "Balanced"@,
            PowerMethod::Battery => "Battery"@,
            PowerMethod::GetGraphics => "GetGraphics"@,
            PowerMethod::GetProfile => "GetProfile"@,
            PowerMethod::GetSwitchable => "GetSwitchable"@,
            PowerMethod::SetGraphics => "SetGraphics"@,
            PowerMethod::GetGraphicsPower => "GetGraphicsPower"@,
            PowerMethod::SetGraphicsPower => "SetGraphicsPower"@,
            PowerMethod::AutoGraphicsPower => "AutoGraphicsPower"@,
        }
    }

    /// The method's D-Bus name.
    pub fn name(&self) -> (s: &'static str)
        ensures
            s@ == self.name_spec(),
    {
        match self {
            PowerMethod::Test => "Test",
            PowerMethod::Performance => "Performance",
            PowerMethod::Balanced => "Balanced",
            PowerMethod::Battery => "Battery",
            PowerMethod::GetGraphics => "GetGraphics",
            PowerMethod::GetProfile => "GetProfile",
            PowerMethod::GetSwitchable => "GetSwitchable",
            PowerMethod::SetGraphics => "SetGraphics",
            PowerMethod::GetGraphicsPower => "GetGraphicsPower",
            PowerMethod::SetGraphicsPower => "SetGraphicsPower",
            PowerMethod::AutoGraphicsPower => "AutoGraphicsPower",
        }
    }
}

/// The methods that the service registers on its interface.
pub open spec fn served_by_daemon(m: PowerMethod) -> bool {
    m != PowerMethod::SetGraphics && m != PowerMethod::AutoGraphicsPower
}

/// The registered method that a call by name reaches, if any.
pub open spec fn daemon_method_spec(name: Seq<char>) -> Option<PowerMethod> {
    if name == "Test"@ {
        Some(PowerMethod::Test)
    } else if name == "Performance"@ {
        Some(PowerMethod::Performance)
    } else if name == "Balanced"@ {
        Some(PowerMethod::Balanced)
    } else if name == "Battery"@ {
        Some(PowerMethod::Battery)
    } else if name == "GetGraphics"@ {
        Some(PowerMethod::GetGraphics)
    } else if name == "GetProfile"@ {
        Some(PowerMethod::GetProfile)
    } else if name == "GetSwitchable"@ {
        Some(PowerMethod::GetSwitchable)
    } else if name == "GetGraphicsPower"@ {
        Some(PowerMethod::GetGraphicsPower)
    } else if name == "SetGraphicsPower"@ {
        Some(PowerMethod::SetGraphicsPower)
    } else {
        None
    }
}

/// The registered method that a call by name reaches, if any.
pub fn daemon_method(name: &str) -> (m: Option<PowerMethod>)
    ensures
        m == daemon_method_spec(name@),
{
    if str_eq(name, "Test") {
        Some(PowerMethod::Test)
    } else if str_eq(name, "Performance") {
        Some(PowerMethod::Performance)
    } else if str_eq(name, "Balanced") {
        Some(PowerMethod::Balanced)
    } else if str_eq(name, "Battery") {
        Some(PowerMethod::Battery)
    } else if str_eq(name, "GetGraphics") {
        Some(PowerMethod::GetGraphics)
    } else if str_eq(name, "GetProfile") {
        Some(PowerMethod::GetProfile)
    } else if str_eq(name, "GetSwitchable") {
        Some(PowerMethod::GetSwitchable)
    } else if str_eq(name, "GetGraphicsPower") {
        Some(PowerMethod::GetGraphicsPower)
    } else if str_eq(name, "SetGraphicsPower") {
        Some(PowerMethod::SetGraphicsPower)
    } else {
        None
    }
}

/// A call by a method's name reaches that method when the service registers
/// it, and reaches nothing when it does not (`SetGraphics` and
/// `AutoGraphicsPower`, which the client calls, are not registered).
pub proof fn lemma_call_by_name(m: PowerMethod)
    ensures
        served_by_daemon(m) ==> daemon_method_spec(m.name_spec()) == Some(m),
        !served_by_daemon(m) ==> daemon_method_spec(m.name_spec()) == None::<PowerMethod>,
{
    reveal_strlit("Test");
    reveal_strlit("Performance");
    reveal_strlit("Balanced");
    reveal_strlit("Battery");
    reveal_strlit("GetGraphics");
    reveal_strlit("GetProfile");
    reveal_strlit("GetSwitchable");
    reveal_strlit("SetGraphics");
    reveal_strlit("GetGraphicsPower");
    reveal_strlit("SetGraphicsPower");
    reveal_strlit("AutoGraphicsPower");
    match m {
        PowerMethod::Test => {},
        PowerMethod::Performance => {
            assert("Performance"@[0] != "Test"@[0]);
        },
        PowerMethod::Balanced => {
            assert("Balanced"@[0] != "Test"@[0]);
            assert("Balanced"@[0] != "Performance"@[0]);
        },
        PowerMethod::Battery => {
            assert("Battery"@[0] != "Test"@[0]);
            assert("Battery"@[0] != "Performance"@[0]);
            assert("Battery"@[2] != "Balanced"@[2]);
        },
        PowerMethod::GetGraphics => {
            assert("GetGraphics"@[0] != "Performance"@[0]);
        },
        PowerMethod::GetProfile => {
            assert("GetProfile"@[3] != "GetGraphics"@[3]);
        },
        PowerMethod::GetSwitchable => {
            assert("GetSwitchable"@[3] != "GetGraphics"@[3]);
        },
        PowerMethod::SetGraphics => {
            assert("SetGraphics"@[0] != "Test"@[0]);
            assert("SetGraphics"@[0] != "Performance"@[0]);
            assert("SetGraphics"@[0] != "Balanced"@[0]);
            assert("SetGraphics"@[0] != "Battery"@[0]);
            assert("SetGraphics"@[0] != "GetGraphics"@[0]);
            assert("SetGraphics"@[0] != "GetProfile"@[0]);
            assert("SetGraphics"@[0] != "GetSwitchable"@[0]);
            assert("SetGraphics"@[0] != "GetGraphicsPower"@[0]);
            assert("SetGraphics"@.len() != "SetGraphicsPower"@.len());
        },
        PowerMethod::GetGraphicsPower => {
            assert("GetGraphicsPower"@.len() != "GetSwitchable"@.len());
        },
        PowerMethod::SetGraphicsPower => {
            assert("SetGraphicsPower"@[0] != "GetGraphicsPower"@[0]);
        },
        PowerMethod::AutoGraphicsPower => {
            assert("AutoGraphicsPower"@[0] != "Test"@[0]);
            assert("AutoGraphicsPower"@[0] != "Performance"@[0]);
            assert("AutoGraphicsPower"@[0] != "Balanced"@[0]);
            assert("AutoGraphicsPower"@[0] != "Battery"@[0]);
            assert("AutoGraphicsPower"@[0] != "GetGraphics"@[0]);
            assert("AutoGraphicsPower"@[0] != "GetProfile"@[0]);
            assert("AutoGraphicsPower"@[0] != "GetSwitchable"@[0]);
            assert("AutoGraphicsPower"@[0] != "GetGraphicsPower"@[0]);
            assert("AutoGraphicsPower"@[0] != "SetGraphicsPower"@[0]);
        },
    }
}

/// Each method goes by the name it has on the `com.system76.PowerDaemon`
/// interface, and no two methods share a name.
pub proof fn lemma_method_names(m: PowerMethod, n: PowerMethod)
    ensures
        PowerMethod::Test.name_spec() == "Test"@,
        PowerMethod::Performance.name_spec() == "Performance"@,
        PowerMethod::Balanced.name_spec() == "Balanced"@,
        PowerMethod::Battery.name_spec() == "Battery"@,
        PowerMethod::GetGraphics.name_spec() == "GetGraphics"@,
        PowerMethod::GetProfile.name_spec() == "GetProfile"@,
        PowerMethod::GetSwitchable.name_spec() == "GetSwitchable"@,
        PowerMethod::SetGraphics.name_spec() == "SetGraphics"@,
        PowerMethod::GetGraphicsPower.name_spec() == "GetGraphicsPower"@,
        PowerMethod::SetGraphicsPower.name_spec() == "SetGraphicsPower"@,
        PowerMethod::AutoGraphicsPower.name_spec() == "AutoGraphicsPower"@,
        m != n ==> m.name_spec() != n.name_spec(),
{
    lemma_call_by_name(m);
    lemma_call_by_name(n);
    if m != n && m.name_spec() == n.name_spec() {
        if served_by_daemon(m) {
            assert(daemon_method_spec(n.name_spec()) == Some(m));
        } else {
            assert(!served_by_daemon(n));
            reveal_strlit("SetGraphics");
            reveal_strlit("AutoGraphicsPower");
            assert("SetGraphics"@[0] != "AutoGraphicsPower"@[0]);
        }
    }
}

/// The method that switches the service to a profile is called by that
/// profile's name, and a call by the profile's name reaches that method.
pub proof fn lemma_profile_methods(p: Profile)
    ensures
        ({
            let m = match p {
                Profile::Battery => PowerMethod::Battery,
                Profile::Balanced => PowerMethod::Balanced,
                Profile::Performance => PowerMethod::Performance,
            };
            &&& m.name_spec() == p.name_spec()
            &&& daemon_method_spec(p.name_spec()) == Some(m)
        }),
{
    lemma_call_by_name(PowerMethod::Battery);
    lemma_call_by_name(PowerMethod::Balanced);
    lemma_call_by_name(PowerMethod::Performance);
}

} // verus!
