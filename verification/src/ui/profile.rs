//! Profiles of the tray application: which layout and keyboard locale to use when a window
//! that matches the activation rule comes in front.
use vstd::prelude::*;
use regex::Regex;
use std::collections::HashMap;
use std::str::FromStr;
use crate::text::push_str;

verus! {

/// A compiled regular expression of the regex crate, seen from verified code as an opaque
/// value.
#[verifier::external_type_specification]
#[verifier::external_body]
pub struct ExRegex(Regex);

/// Whether the regex crate accepts a pattern: whether `Regex::from_str` compiles it. This
/// depends on the pattern alone.
pub uninterp spec fn regex_compiles(pattern: Seq<char>) -> bool;

/// `Regex::from_str` of the regex crate: the compiled pattern, if the crate accepts it.
#[verifier::external_body]
fn compile_regex(pattern: &str) -> (r: Option<Regex>)
    ensures
        r is Some == regex_compiles(pattern@),
{
    Regex::from_str(pattern).ok()
}

/// Whether a compiled pattern of the regex crate matches somewhere in a text, as
/// `Regex::is_match` answers. This depends on the pattern and the text alone.
pub uninterp spec fn regex_matches(pattern: Seq<char>, text: Seq<char>) -> bool;

/// An activation rule compiled by the regex crate, together with the pattern it was compiled
/// from. Only [`ActivationPattern::new`] builds one, so its regex is always the compilation of
/// its pattern.
#[derive(Debug)]
pub struct ActivationPattern {
    pattern: String,
    regex: Regex,
}

impl View for ActivationPattern {
    type V = Seq<char>;

    /// The pattern that the regex was compiled from.
    closed spec fn view(&self) -> Seq<char> {
        self.pattern@
    }
}

/// `Regex::is_match` of the regex crate on the regex of an activation pattern: whether the
/// pattern matches somewhere in the text. The claim rests on the regex of an
/// [`ActivationPattern`] being the compilation of its pattern, which holds because only
/// [`ActivationPattern::new`] builds one.
#[verifier::external_body]
fn regex_is_match(a: &ActivationPattern, text: &str) -> (r: bool)
    ensures
        r == regex_matches(a@, text@),
{
    a.regex.is_match(text)
}

/// The text of an optional string.
pub open spec fn opt_text(s: Option<&str>) -> Option<Seq<char>> {
    match s {
        Some(t) => Some(t@),
        None => None,
    }
}

/// Whether a pattern matches a window: its title, or else the path of its program, whichever
/// of the two could be read.
pub open spec fn window_matches(
    pattern: Seq<char>,
    title: Option<Seq<char>>,
    path: Option<Seq<char>>,
) -> bool {
    ||| (title matches Some(t) && regex_matches(pattern, t))
    ||| (path matches Some(p) && regex_matches(pattern, p))
}

impl ActivationPattern {
    /// The pattern compiled, if the regex crate accepts it.
    pub fn new(pattern: &str) -> (r: Option<Self>)
        ensures
            r is Some == regex_compiles(pattern@),
            r matches Some(a) ==> a@ == pattern@,
    {
        match compile_regex(pattern) {
            Some(regex) => {
                let mut p = String::new();
                push_str(&mut p, pattern);
                Some(ActivationPattern { pattern: p, regex })
            },
            None => None,
        }
    }

    /// Whether the pattern matches somewhere in the text.
    pub fn is_match(&self, text: &str) -> (r: bool)
        ensures
            r == regex_matches(self@, text@),
    {
        regex_is_match(self, text)
    }

    /// Whether the pattern matches a window, given its title and the path of its program
    /// where they could be read; see [`window_matches`].
    pub fn matches_window(&self, title: Option<&str>, path: Option<&str>) -> (r: bool)
        ensures
            r == window_matches(self@, opt_text(title), opt_text(path)),
    {
        let by_title = match title {
            Some(t) => self.is_match(t),
            None => false,
        };
        if by_title {
            return true;
        }
        match path {
            Some(p) => self.is_match(p),
            None => false,
        }
    }

    /// The window, if the pattern matches it; see [`window_matches`].
    pub fn active_window_match(&self, window: isize, title: Option<&str>, path: Option<&str>) -> (r:
        Option<isize>)
        ensures
            r == (if window_matches(self@, opt_text(title), opt_text(path)) {
                Some(window)
            } else {
                None::<isize>
            }),
    {
        if self.matches_window(title, path) {
            Some(window)
        } else {
            None
        }
    }
}

/// A profile: the rule (a regular expression over window titles and program paths) that
/// activates it, the layout it uses and the keyboard locale it switches to.
#[derive(Debug, PartialEq, Eq, Clone, Default)]
pub struct Profile {
    pub activation_rule: Option<String>,
    pub transform_layout: String,
    pub keyboard_locale: Option<String>,
}

impl Profile {
    /// The compiled activation rule: none when the profile has no rule, or when the rule is
    /// not a pattern that the regex crate accepts.
    pub fn rule_regex(&self) -> (r: Option<ActivationPattern>)
        ensures
            r is Some == match self.activation_rule {
                Some(rule) => regex_compiles(rule@),
                None => false,
            },
            r matches Some(a) ==> self.activation_rule matches Some(rule) && a@ == rule@,
    {
        match &self.activation_rule {
            Some(rule) => ActivationPattern::new(rule.as_str()),
            None => None,
        }
    }
}

/// The activation rule of a profile, as text.
pub open spec fn profile_rule(p: Profile) -> Option<Seq<char>> {
    match p.activation_rule {
        Some(rule) => Some(rule@),
        None => None,
    }
}

/// Whether a profile activates for a window: it has a rule, the regex crate accepts the rule,
/// and the rule matches the window; see [`window_matches`].
pub open spec fn profile_matches(p: Profile, title: Option<Seq<char>>, path: Option<Seq<char>>) -> bool {
    profile_rule(p) matches Some(rule) && regex_compiles(rule) && window_matches(rule, title, path)
}

/// A pattern matches a window when it matches the window's title, whatever the path of its
/// program, and when it matches the path, whatever the title; it matches no other window.
/// A profile whose rule the regex crate accepts and which matches the title, or the path,
/// activates for the window.
pub proof fn law_window_matches(
    pattern: Seq<char>,
    title: Option<Seq<char>>,
    path: Option<Seq<char>>,
    p: Profile,
)
    ensures
        (title matches Some(t) && regex_matches(pattern, t)) ==> window_matches(pattern, title, path),
        (path matches Some(q) && regex_matches(pattern, q)) ==> window_matches(pattern, title, path),
        window_matches(pattern, title, path) ==> (title matches Some(t) && regex_matches(pattern, t))
            || (path matches Some(q) && regex_matches(pattern, q)),
        (profile_rule(p) matches Some(rule) && regex_compiles(rule) && ((title matches Some(t)
            && regex_matches(rule, t)) || (path matches Some(q) && regex_matches(rule, q))))
            ==> profile_matches(p, title, path),
{
}

/// The profile that a window in front activates: the first of the profiles, in their order,
/// whose rule matches the window, with the window; none when no profile's rule matches it.
pub fn find_profile_match(
    profiles: &Vec<(String, Profile)>,
    window: isize,
    title: Option<&str>,
    path: Option<&str>,
) -> (r: Option<(isize, String)>)
    ensures
        match r {
            Some((w, name)) => w == window && exists|i: int|
                0 <= i < profiles@.len() && name@ == (#[trigger] profiles@[i]).0@
                    && profile_matches(profiles@[i].1, opt_text(title), opt_text(path))
                    && forall|j: int|
                    0 <= j < i ==> !profile_matches(
                        (#[trigger] profiles@[j]).1,
                        opt_text(title),
                        opt_text(path),
                    ),
            None => forall|j: int|
                0 <= j < profiles@.len() ==> !profile_matches(
                    (#[trigger] profiles@[j]).1,
                    opt_text(title),
                    opt_text(path),
                ),
        },
{
    let mut i: usize = 0;
    while i < profiles.len()
        invariant
            i <= profiles@.len(),
            forall|j: int|
                0 <= j < i ==> !profile_matches(
                    (#[trigger] profiles@[j]).1,
                    opt_text(title),
                    opt_text(path),
                ),
        decreases profiles.len() - i,
    {
        let entry = &profiles[i];
        match entry.1.rule_regex() {
            Some(pattern) => {
                if pattern.matches_window(title, path) {
                    let name = entry.0.clone();
                    assert(profile_matches(profiles@[i as int].1, opt_text(title), opt_text(path)));
                    return Some((window, name));
                }
            },
            None => {},
        }
        i = i + 1;
    }
    None
}

/// The profiles, by name.
#[derive(Debug, Clone, Default, PartialEq, Eq)]
pub struct Profiles(pub HashMap<String, Profile>);

} // verus!
