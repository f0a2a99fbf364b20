//! Conditional rules gated on the host platform and on capability flags.
//!
//! A rule names an action (allow or disallow), an optional platform
//! predicate and an optional feature predicate.  When both predicates hold
//! (absent predicates hold vacuously) the rule yields its action; otherwise
//! it yields the complement of its action.  An item gated by a sequence of
//! rules is active exactly when every rule in the sequence allows it.

use vstd::prelude::*;

verus! {

/// An operating-system family a rule can demand.
#[derive(Debug, Clone, Copy, PartialEq, Eq, Structural)]
pub enum OperatingSystem {
    Windows,
    Linux,
    Osx,
}

/// A CPU architecture a rule can demand.
#[derive(Debug, Clone, Copy, PartialEq, Eq, Structural)]
pub enum Architecture {
    X64,
    Arm64,
    X86,
    Arm32,
}

/// The environment the process actually runs on, detected once at startup
/// by the caller and passed down unchanged.
#[derive(Debug, Clone, Copy, PartialEq, Eq, Structural)]
pub struct HostPlatform {
    pub os: OperatingSystem,
    pub arch: Architecture,
}

/// A platform predicate: an absent field matches any host value.
#[derive(Debug)]
pub struct Platform {
    pub os: Option<OperatingSystem>,
    pub arch: Option<Architecture>,
    pub version: Option<String>,
}

impl Platform {
    /// What it means for this descriptor to match the host.  The version
    /// string is never inspected.
    pub open spec fn spec_matches(&self, host: HostPlatform) -> bool {
        &&& (self.os matches Some(os) ==> os == host.os)
        &&& (self.arch matches Some(arch) ==> arch == host.arch)
    }

    /// Does this descriptor match the given host platform?
    pub fn is_current(&self, host: &HostPlatform) -> (r: bool)
        ensures
            r == self.spec_matches(*host),
    {
        let os_ok = match self.os {
            Some(os) => os == host.os,
            None => true,
        };
        let arch_ok = match self.arch {
            Some(arch) => arch == host.arch,
            None => true,
        };
        os_ok && arch_ok
    }
}

/// The capability flags of one launch session.  An absent flag is
/// unspecified, which is weaker than explicitly `false`.
#[derive(Debug, Clone, Copy)]
pub struct Features {
    pub is_demo_user: Option<bool>,
    pub has_custom_resolution: Option<bool>,
    pub has_quick_plays_support: Option<bool>,
    pub is_quick_play_singleplayer: Option<bool>,
    pub is_quick_play_multiplayer: Option<bool>,
    pub is_quick_play_realms: Option<bool>,
}

/// One flag of the environment (`have`) against one flag a rule demands
/// (`want`): specified flags must agree, an unspecified environment flag is
/// compatible unless the rule demands `true`.
pub open spec fn spec_flag_satisfies(have: Option<bool>, want: Option<bool>) -> bool {
    match (have, want) {
        (Some(a), Some(b)) => a == b,
        (None, Some(b)) => !b,
        (_, None) => true,
    }
}

fn flag_satisfies(have: Option<bool>, want: Option<bool>) -> (r: bool)
    ensures
        r == spec_flag_satisfies(have, want),
{
    match (have, want) {
        (Some(a), Some(b)) => a == b,
        (None, Some(b)) => !b,
        (_, None) => true,
    }
}

impl Features {
    /// The set with every flag unspecified.
    pub open spec fn spec_empty() -> Features {
        Features {
            is_demo_user: None,
            has_custom_resolution: None,
            has_quick_plays_support: None,
            is_quick_play_singleplayer: None,
            is_quick_play_multiplayer: None,
            is_quick_play_realms: None,
        }
    }

    /// The default feature set used at resolution time: nothing specified.
    pub fn empty() -> (r: Features)
        ensures
            r == Features::spec_empty(),
    {
        Features {
            is_demo_user: None,
            has_custom_resolution: None,
            has_quick_plays_support: None,
            is_quick_play_singleplayer: None,
            is_quick_play_multiplayer: None,
            is_quick_play_realms: None,
        }
    }

    pub fn builder() -> (r: FeaturesBuilder)
        ensures
            r.0 == Features::spec_empty(),
    {
        FeaturesBuilder::new()
    }

    /// Containment of `other`'s demands in this environment: flag by flag,
    /// `spec_flag_satisfies`.  This is a requirement check, not set
    /// inclusion, and it is deliberately asymmetric.
    pub open spec fn spec_contains(&self, other: Features) -> bool {
        &&& spec_flag_satisfies(self.is_demo_user, other.is_demo_user)
        &&& spec_flag_satisfies(self.has_custom_resolution, other.has_custom_resolution)
        &&& spec_flag_satisfies(self.has_quick_plays_support, other.has_quick_plays_support)
        &&& spec_flag_satisfies(self.is_quick_play_singleplayer, other.is_quick_play_singleplayer)
        &&& spec_flag_satisfies(self.is_quick_play_multiplayer, other.is_quick_play_multiplayer)
        &&& spec_flag_satisfies(self.is_quick_play_realms, other.is_quick_play_realms)
    }

    /// Does this environment satisfy everything `other` demands?
    pub fn contains(&self, other: &Features) -> (r: bool)
        ensures
            r == self.spec_contains(*other),
    {
        flag_satisfies(self.is_demo_user, other.is_demo_user)
            && flag_satisfies(self.has_custom_resolution, other.has_custom_resolution)
            && flag_satisfies(self.has_quick_plays_support, other.has_quick_plays_support)
            && flag_satisfies(self.is_quick_play_singleplayer, other.is_quick_play_singleplayer)
            && flag_satisfies(self.is_quick_play_multiplayer, other.is_quick_play_multiplayer)
            && flag_satisfies(self.is_quick_play_realms, other.is_quick_play_realms)
    }
}

/// Builds a `Features` value one flag at a time.
#[must_use]
pub struct FeaturesBuilder(pub Features);

impl FeaturesBuilder {
    pub fn new() -> (r: Self)
        ensures
            r.0 == Features::spec_empty(),
    {
        FeaturesBuilder(Features::empty())
    }

    pub fn demo_user(self, is_demo_user: bool) -> (r: Self)
        ensures
            r.0 == (Features { is_demo_user: Some(is_demo_user), ..self.0 }),
    {
        FeaturesBuilder(Features { is_demo_user: Some(is_demo_user), ..self.0 })
    }

    pub fn custom_resolution(self, has_custom_resolution: bool) -> (r: Self)
        ensures
            r.0 == (Features { has_custom_resolution: Some(has_custom_resolution), ..self.0 }),
    {
        FeaturesBuilder(Features { has_custom_resolution: Some(has_custom_resolution), ..self.0 })
    }

    pub fn quick_plays_support(self, has_quick_plays_support: bool) -> (r: Self)
        ensures
            r.0 == (Features { has_quick_plays_support: Some(has_quick_plays_support), ..self.0 }),
    {
        FeaturesBuilder(Features { has_quick_plays_support: Some(has_quick_plays_support), ..self.0 })
    }

    pub fn quick_play_singleplayer(self, is_quick_play_singleplayer: bool) -> (r: Self)
        ensures
            r.0 == (Features {
                is_quick_play_singleplayer: Some(is_quick_play_singleplayer),
                ..self.0
            }),
    {
        FeaturesBuilder(Features {
            is_quick_play_singleplayer: Some(is_quick_play_singleplayer),
            ..self.0
        })
    }

    pub fn quick_play_multiplayer(self, is_quick_play_multiplayer: bool) -> (r: Self)
        ensures
            r.0 == (Features {
                is_quick_play_multiplayer: Some(is_quick_play_multiplayer),
                ..self.0
            }),
    {
        FeaturesBuilder(Features {
            is_quick_play_multiplayer: Some(is_quick_play_multiplayer),
            ..self.0
        })
    }

    pub fn quick_play_realms(self, is_quick_play_realms: bool) -> (r: Self)
        ensures
            r.0 == (Features { is_quick_play_realms: Some(is_quick_play_realms), ..self.0 }),
    {
        FeaturesBuilder(Features { is_quick_play_realms: Some(is_quick_play_realms), ..self.0 })
    }

    pub fn build(self) -> (r: Features)
        ensures
            r == self.0,
    {
        self.0
    }
}

impl Default for FeaturesBuilder {
    fn default() -> (r: Self)
        ensures
            r.0 == Features::spec_empty(),
    {
        Self::new()
    }
}

impl Default for Platform {
    /// The descriptor that matches every host.
    fn default() -> (r: Self)
        ensures
            r.os is None && r.arch is None && r.version is None,
    {
        Platform { os: None, arch: None, version: None }
    }
}

/// What a matching rule yields; a non-matching rule yields the complement.
#[derive(Debug, Clone, Copy, PartialEq, Eq, Structural)]
pub enum RuleAction {
    Allow,
    Disallow,
}

/// A conditional allow/disallow gate.
#[derive(Debug)]
pub struct Rule {
    pub action: RuleAction,
    pub platform: Option<Platform>,
    pub features: Option<Features>,
}

impl Rule {
    /// The match condition: each predicate is absent or holds.
    pub open spec fn spec_matches(&self, present: Features, host: HostPlatform) -> bool {
        &&& (self.features matches Some(f) ==> present.spec_contains(f))
        &&& (self.platform matches Some(p) ==> p.spec_matches(host))
    }

    /// Evaluation: the action itself when the rule matches, the complement
    /// of the action when it does not.
    pub open spec fn spec_test(&self, present: Features, host: HostPlatform) -> bool {
        if self.spec_matches(present, host) {
            self.action is Allow
        } else {
            self.action is Disallow
        }
    }

    /// Evaluate this rule against the session's features and the host.
    pub fn test(&self, present_features: Features, host: &HostPlatform) -> (r: bool)
        ensures
            r == self.spec_test(present_features, *host),
    {
        let features_ok = match &self.features {
            Some(features) => present_features.contains(features),
            None => true,
        };
        let platform_ok = match &self.platform {
            Some(platform) => platform.is_current(host),
            None => true,
        };
        if features_ok && platform_ok {
            matches!(self.action, RuleAction::Allow)
        } else {
            matches!(self.action, RuleAction::Disallow)
        }
    }
}

/// Conjunctive verdict over a rule sequence: every rule must allow.  An
/// empty sequence is vacuously allowed.
pub open spec fn spec_rules_allow(rules: Seq<Rule>, present: Features, host: HostPlatform) -> bool {
    forall|i: int| 0 <= i < rules.len() ==> #[trigger] rules[i].spec_test(present, host)
}

/// Evaluate a whole rule sequence; the verdict is the conjunction of the
/// individual verdicts.
pub fn rules_allow(rules: &Vec<Rule>, present_features: Features, host: &HostPlatform) -> (r: bool)
    ensures
        r == spec_rules_allow(rules@, present_features, *host),
{
    let mut i: usize = 0;
    while i < rules.len()
        invariant
            i <= rules@.len(),
            forall|j: int| 0 <= j < i ==> #[trigger] rules@[j].spec_test(present_features, *host),
        decreases rules@.len() - i,
    {
        if !rules[i].test(present_features, host) {
            return false;
        }
        i = i + 1;
    }
    true
}

/// Containment is reflexive, and every environment contains the set that
/// demands nothing.
pub proof fn lemma_contains_reflexive(a: Features)
    ensures
        a.spec_contains(a),
        a.spec_contains(Features::spec_empty()),
{
}

/// An environment that leaves a capability unspecified does not contain a
/// set that demands that capability be `true`.
pub proof fn lemma_contains_missing_true(a: Features, b: Features)
    requires
        ({
            ||| a.is_demo_user is None && b.is_demo_user == Some(true)
            ||| a.has_custom_resolution is None && b.has_custom_resolution == Some(true)
            ||| a.has_quick_plays_support is None && b.has_quick_plays_support == Some(true)
            ||| a.is_quick_play_singleplayer is None && b.is_quick_play_singleplayer == Some(true)
            ||| a.is_quick_play_multiplayer is None && b.is_quick_play_multiplayer == Some(true)
            ||| a.is_quick_play_realms is None && b.is_quick_play_realms == Some(true)
        }),
    ensures
        !a.spec_contains(b),
{
}

/// A rule with neither predicate always matches: it evaluates to `true`
/// exactly when its action is `Allow`.
pub proof fn lemma_unconditional_rule(r: Rule, present: Features, host: HostPlatform)
    requires
        r.platform is None,
        r.features is None,
    ensures
        r.spec_test(present, host) == (r.action is Allow),
{
}

/// A rule whose feature predicate the present features do not contain
/// evaluates to the complement of its stated action.
pub proof fn lemma_unmet_features_complement(r: Rule, present: Features, host: HostPlatform)
    requires
        r.features matches Some(f) && !present.spec_contains(f),
    ensures
        r.spec_test(present, host) == (r.action is Disallow),
{
}

} // verus!
