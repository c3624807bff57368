//! Power profiles and the service's record of the profile in force.

use vstd::prelude::*;
use vstd::string::StringExecFns;

verus! {

/// A power profile.
#[derive(Clone, Copy, Debug, PartialEq, Eq, Structural)]
pub enum Profile {
    Battery,
    Balanced,
    Performance,
}

impl Profile {
    /// The profile's name: in the service's record, in its switch signal, and
    /// as the name of the D-Bus method that selects it.
    pub open spec fn name_spec(self) -> Seq<char> {
        match self {
            Profile::Battery => "Battery"@,
            Profile::Balanced => "Balanced"@,
            Profile::Performance => "Performance"@,
        }
    }

    pub fn name(&self) -> (s: &'static str)
        ensures
            s@ == self.name_spec(),
    {
        match self {
            Profile::Battery => "Battery",
            Profile::Balanced => "Balanced",
            Profile::Performance => "Performance",
        }
    }
}

/// What the service is to do on a request to switch to a profile.
#[derive(Clone, Copy, Debug, PartialEq, Eq, Structural)]
pub enum SwitchAction {
    /// The profile is already in force: nothing is applied and the request succeeds.
    AlreadySet,
    /// Apply the profile's settings; `initial_set` is handed to them, and is
    /// false only while the service applies its first profile at start-up.
    Apply { initial_set: bool },
}

/// The abstract record: the profile in force (none before the first switch)
/// and whether start-up is over.
pub struct ProfileStateView {
    pub current: Option<Profile>,
    pub initial_set: bool,
}

/// The service's record of the power profile in force.
pub struct ProfileState {
    current: Option<Profile>,
    initial_set: bool,
}

impl View for ProfileState {
    type V = ProfileStateView;

    closed spec fn view(&self) -> ProfileStateView {
        ProfileStateView { current: self.current, initial_set: self.initial_set }
    }
}

/// The name reported for the profile in force: empty before the first switch.
pub open spec fn current_name(current: Option<Profile>) -> Seq<char> {
    match current {
        Some(p) => p.name_spec(),
        None => Seq::<char>::empty(),
    }
}

pub open spec fn switch_action(s: ProfileStateView, p: Profile) -> SwitchAction {
    if s.current == Some(p) {
        SwitchAction::AlreadySet
    } else {
        SwitchAction::Apply { initial_set: s.initial_set }
    }
}

pub open spec fn after_switch(s: ProfileStateView, p: Profile) -> ProfileStateView {
    ProfileStateView { current: Some(p), initial_set: s.initial_set }
}

/// The lines that list the errors met while a profile was applied.
pub open spec fn error_lines(errors: Seq<Seq<char>>) -> Seq<char>
    decreases errors.len(),
{
    if errors.len() == 0 {
        Seq::<char>::empty()
    } else {
        error_lines(errors.drop_last()) + "\n    - "@ + errors.last()
    }
}

/// The error text of a switch during which applying the profile met `errors`.
pub open spec fn switch_error_message(errors: Seq<Seq<char>>) -> Seq<char> {
    "Errors found when setting profile:"@ + error_lines(errors)
}

pub open spec fn string_views(v: Seq<String>) -> Seq<Seq<char>> {
    v.map_values(|e: String| e@)
}

/// The error text for the errors met while applying a profile.
pub fn switch_error_text(errors: &Vec<String>) -> (s: String)
    ensures
        s@ == switch_error_message(string_views(errors@)),
{
    let mut msg = String::from_str("Errors found when setting profile:");
    let n: usize = errors.len();
    let ghost views = string_views(errors@);
    let mut i: usize = 0;
    while i < n
        invariant
            n == errors@.len(),
            views == string_views(errors@),
            i <= n,
            msg@ == "Errors found when setting profile:"@ + error_lines(views.take(i as int)),
        decreases n - i,
    {
        msg.append("\n    - ");
        msg.append(errors[i].as_str());
        assert(views.take(i + 1).drop_last() =~= views.take(i as int));
        assert(views.take(i + 1).last() == errors@[i as int]@);
        i = i + 1;
    }
    assert(views.take(n as int) =~= views);
    msg
}

impl ProfileState {
    /// The record of a service that has not switched to any profile yet.
    pub fn new() -> (s: Self)
        ensures
            s@.current == None::<Profile>,
            !s@.initial_set,
    {
        ProfileState { current: None, initial_set: false }
    }

    /// The name of the profile in force (empty before the first switch).
    pub fn get_profile(&self) -> (s: String)
        ensures
            s@ == current_name(self@.current),
    {
        match self.current {
            Some(p) => String::from_str(p.name()),
            None => String::new(),
        }
    }

    /// Whether start-up is over.
    pub fn initial_set(&self) -> (b: bool)
        ensures
            b == self@.initial_set,
    {
        self.initial_set
    }

    /// Marks the end of start-up.
    pub fn mark_initial_set(&mut self)
        ensures
            final(self)@.current == old(self)@.current,
            final(self)@.initial_set,
    {
        self.initial_set = true;
    }

    /// The first half of a switch to `profile`: whether its settings are to be
    /// applied, and with which start-up flag.
    pub fn begin_switch(&self, profile: Profile) -> (a: SwitchAction)
        ensures
            a == switch_action(self@, profile),
    {
        match self.current {
            Some(p) => {
                if p == profile {
                    SwitchAction::AlreadySet
                } else {
                    SwitchAction::Apply { initial_set: self.initial_set }
                }
            },
            None => SwitchAction::Apply { initial_set: self.initial_set },
        }
    }

    /// The second half of a switch, once the profile's settings were applied
    /// and met `errors`: the profile is recorded as the one in force, and the
    /// switch succeeds if and only if there were no errors.
    pub fn finish_switch(&mut self, profile: Profile, errors: &Vec<String>) -> (r: Result<(), String>)
        ensures
            final(self)@ == after_switch(old(self)@, profile),
            final(self)@.current == Some(profile),
            final(self)@.initial_set == old(self)@.initial_set,
            r is Ok <==> errors@.len() == 0,
            r matches Err(m) ==> m@ == switch_error_message(string_views(errors@)),
    {
        self.current = Some(profile);
        if errors.len() == 0 {
            Ok(())
        } else {
            Err(switch_error_text(errors))
        }
    }
}

/// Once a switch to a profile is finished, the profile reported is that
/// profile's name, and a new request for the same profile applies nothing.
pub proof fn lemma_switch_is_recorded(s: ProfileStateView, p: Profile)
    ensures
        current_name(after_switch(s, p).current) == p.name_spec(),
        switch_action(after_switch(s, p), p) == SwitchAction::AlreadySet,
{
}

/// A finished switch keeps the start-up flag: once start-up is over, every
/// later request for another profile than the one in force is applied as
/// after start-up, however many switches came in between.
pub proof fn lemma_switch_keeps_start_up_flag(s: ProfileStateView, p: Profile, q: Profile)
    ensures
        after_switch(s, p).initial_set == s.initial_set,
        after_switch(s, p).current == Some(p),
        s.initial_set && q != p ==> switch_action(after_switch(s, p), q) == (SwitchAction::Apply { initial_set: true }),
{
}

/// A request for another profile than the one in force always applies it,
/// with the start-up flag of the record.
pub proof fn lemma_other_profile_applies(s: ProfileStateView, p: Profile)
    requires
        s.current != Some(p),
    ensures
        switch_action(s, p) == (SwitchAction::Apply { initial_set: s.initial_set }),
{
}

} // verus!
