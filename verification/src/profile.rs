//! Profiles: a titled list of rules, with the rule that activates the profile by itself.
use vstd::prelude::*;
use crate::keyboard::key_action::KeyAction;
use crate::keyboard::key_trigger::KeyTrigger;
use crate::keyboard::parse::{parse_profile, ParseOutcome};
use crate::keyboard::transform_rules::{
    profile_text, rules_known, KeyTransformProfile, KeyTransformRules,
};
use crate::text::push_str;

verus! {

/// When a profile becomes active by itself: when a window with this title is in front.
#[derive(Debug, PartialEq, Eq)]
pub struct ActivationRules {
    pub window_title: String,
}

/// A profile: a title, the rule that activates it by itself, if any, and its rules.
#[derive(Debug, PartialEq, Eq)]
pub struct Profile {
    pub title: String,
    pub auto_activation: Option<ActivationRules>,
    pub rules: KeyTransformRules,
}

impl Profile {
    /// Reads a profile from a text: its first line is the title, the other lines its rules;
    /// see [`parse_profile`]. A profile read from a text does not activate by itself.
    pub fn from_text(s: &str) -> (r: Result<Profile, String>)
        requires
            !(parse_profile(s@) is Panics),
        ensures
            match parse_profile(s@) {
                ParseOutcome::Parsed(v) => r is Ok && r->Ok_0.title@ == v.0 && r->Ok_0.rules@
                    == v.1 && r->Ok_0.auto_activation is None,
                ParseOutcome::Rejected(e) => r is Err && r->Err_0@ == e,
                ParseOutcome::Panics => true,
            },
    {
        let p = KeyTransformProfile::from_text(s)?;
        Ok(Profile { title: p.title, auto_activation: None, rules: p.rules })
    }

    /// The text of the profile: its title, then its rules from the next line on.
    pub fn to_string(&self) -> (r: String)
        requires
            rules_known(self.rules@),
        ensures
            r@ == profile_text(self.title@, self.rules@),
    {
        let mut r = self.title.clone();
        push_str(&mut r, "\n");
        push_str(&mut r, &self.rules.to_string());
        proof {
            reveal_strlit("\n");
            assert("\n"@ =~= seq!['\n']);
        }
        r
    }
}

impl Default for Profile {
    /// The profile titled `No profile`, with no rule, that does not activate by itself.
    fn default() -> (r: Self)
        ensures
            r.title@ == "No profile"@,
            r.auto_activation is None,
            r.rules@ == Seq::<(KeyTrigger, Seq<KeyAction>)>::empty(),
    {
        Profile {
            title: "No profile".to_string(),
            auto_activation: None,
            rules: KeyTransformRules::default(),
        }
    }
}

} // verus!
