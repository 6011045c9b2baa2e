//! The metadata of one version: its client jar, libraries, assets and Java needs.
use crate::text::{concat3, decimal_i64, signed_decimal, str_eq};
use vstd::prelude::*;
use vstd::string::StringExecFns;

verus! {

/// Everything the launcher needs to know about one version.
#[derive(Debug, Default, Clone, PartialEq, Eq)]
pub struct PistonMeta {
    pub arguments: Arguments,
    pub asset_index: AssetIndex,
    pub assets: String,
    pub compliance_level: Option<i64>,
    pub downloads: Downloads,
    pub id: String,
    pub java_version: JavaVersion,
    pub libraries: Vec<Library>,
    pub logging: Option<Logging>,
    pub main_class: String,
    pub minimum_launcher_version: i64,
    pub release_time: String,
    pub time: String,
    pub type_field: String,
}

/// The game and JVM arguments of a version, each kept as the JSON text it was read from.
#[derive(Debug, Default, Clone, PartialEq, Eq)]
pub struct Arguments {
    pub game: Vec<String>,
    pub jvm: Vec<String>,
}

/// Which asset index a version uses.
#[derive(Debug, Default, Clone, PartialEq, Eq)]
pub struct AssetIndex {
    pub id: String,
    pub sha1: String,
    pub size: i64,
    pub total_size: i64,
    pub url: String,
}

#[derive(Debug, Default, Clone, PartialEq, Eq)]
pub struct Downloads {
    pub client: Client,
    pub client_mappings: Option<ClientMappings>,
    pub server: Server,
    pub server_mappings: Option<ServerMappings>,
}

/// The client jar.
#[derive(Debug, Default, Clone, PartialEq, Eq)]
pub struct Client {
    pub sha1: String,
    pub size: i64,
    pub url: String,
}

#[derive(Debug, Default, Clone, PartialEq, Eq)]
pub struct ClientMappings {
    pub sha1: String,
    pub size: i64,
    pub url: String,
}

#[derive(Debug, Default, Clone, PartialEq, Eq)]
pub struct Server {
    pub sha1: String,
    pub size: i64,
    pub url: String,
}

#[derive(Debug, Default, Clone, PartialEq, Eq)]
pub struct ServerMappings {
    pub sha1: String,
    pub size: i64,
    pub url: String,
}

/// The Java a version needs.
#[derive(Debug, Default, Clone, PartialEq, Eq)]
pub struct JavaVersion {
    pub component: String,
    pub major_version: i64,
}

/// A library jar, with the rules that say on which systems it is used.
#[derive(Debug, Default, Clone, PartialEq, Eq)]
pub struct Library {
    pub downloads: LibraryDownloads,
    pub name: String,
    pub rules: Vec<Rule4>,
}

#[derive(Debug, Default, Clone, PartialEq, Eq)]
pub struct LibraryDownloads {
    pub artifact: Artifact,
}

/// A downloadable library file; `path` is relative to the libraries directory.
#[derive(Debug, Default, Clone, PartialEq, Eq)]
pub struct Artifact {
    pub path: String,
    pub sha1: String,
    pub size: i64,
    pub url: String,
}

/// "allow" or "disallow", optionally only on one operating system.
#[derive(Debug, Default, Clone, PartialEq, Eq)]
pub struct Rule4 {
    pub action: String,
    pub os: Option<Os4>,
}

#[derive(Debug, Default, Clone, PartialEq, Eq)]
pub struct Os4 {
    pub name: String,
}

#[derive(Debug, Default, Clone, PartialEq, Eq)]
pub struct Logging {
    pub client: Client2,
}

#[derive(Debug, Default, Clone, PartialEq, Eq)]
pub struct Client2 {
    pub argument: String,
    pub file: File,
    pub type_field: String,
}

#[derive(Debug, Default, Clone, PartialEq, Eq)]
pub struct File {
    pub id: String,
    pub sha1: String,
    pub size: i64,
    pub url: String,
}

/// The message that tells a user with Java `current` whether a version that
/// needs Java `required` will run.
pub open spec fn java_status(current: int, required: int) -> Seq<char> {
    if current >= required {
        "Compatible: Java "@ + signed_decimal(current) + " detected (minimum "@ + signed_decimal(
            required,
        ) + ")"@
    } else {
        "Incompatible: Java "@ + signed_decimal(required) + " is required, but you have "@
            + signed_decimal(current)
    }
}

impl PistonMeta {
    /// Returns a user-friendly message about Java compatibility based on the user's current Java version.
    pub fn get_java_status(&self, current_version: i64) -> (r: String)
        ensures
            r@ == java_status(current_version as int, self.java_version.major_version as int),
    {
        let required = self.java_version.major_version;
        let cur = decimal_i64(current_version);
        let req = decimal_i64(required);
        if current_version >= required {
            let mut r = concat3("Compatible: Java ", cur.as_str(), " detected (minimum ");
            r.append(req.as_str());
            r.append(")");
            r
        } else {
            let mut r = concat3("Incompatible: Java ", req.as_str(), " is required, but you have ");
            r.append(cur.as_str());
            r
        }
    }
}

/// A rule is considered on this system: it names no system, or names "windows".
pub open spec fn rule_applies(rule: Rule4) -> bool {
    match rule.os {
        Some(os) => os.name@ == "windows"@,
        None => true,
    }
}

/// The last rule in `rules` that is considered here says "allow"
/// (false when none is considered).
pub open spec fn last_applicable_allows(rules: Seq<Rule4>) -> bool
    decreases rules.len(),
{
    if rules.len() == 0 {
        false
    } else if rule_applies(rules.last()) {
        rules.last().action@ == "allow"@
    } else {
        last_applicable_allows(rules.drop_last())
    }
}

/// A library with these rules is used here: it has no rules, or the last
/// rule considered here allows it.
pub open spec fn rules_allow(rules: Seq<Rule4>) -> bool {
    rules.len() == 0 || last_applicable_allows(rules)
}

/// A library without rules is used everywhere.
pub proof fn law_library_without_rules_is_used()
    ensures
        rules_allow(Seq::<Rule4>::empty()),
{
}

/// The last rule that is considered here decides: a library whose rules end
/// with such a rule is used exactly when that rule says "allow", whatever
/// came before.
pub proof fn law_last_applicable_rule_decides(rules: Seq<Rule4>, rule: Rule4)
    requires
        rule_applies(rule),
    ensures
        rules_allow(rules.push(rule)) == (rule.action@ == "allow"@),
{
    assert(rules.push(rule).last() == rule);
}

/// A rule for another system changes nothing about a library that already
/// has rules.
pub proof fn law_rule_for_other_system_changes_nothing(rules: Seq<Rule4>, rule: Rule4)
    requires
        !rule_applies(rule),
        rules.len() > 0,
    ensures
        rules_allow(rules.push(rule)) == rules_allow(rules),
{
    assert(rules.push(rule).drop_last() =~= rules);
}

/// A library whose rules all name other systems is not used here.
pub proof fn law_rules_for_other_systems_only_exclude(rules: Seq<Rule4>)
    requires
        rules.len() > 0,
        forall|i: int| 0 <= i < rules.len() ==> !rule_applies(#[trigger] rules[i]),
    ensures
        !rules_allow(rules),
{
    lemma_no_applicable_rule(rules);
}

proof fn lemma_no_applicable_rule(rules: Seq<Rule4>)
    requires
        forall|i: int| 0 <= i < rules.len() ==> !rule_applies(#[trigger] rules[i]),
    ensures
        !last_applicable_allows(rules),
    decreases rules.len(),
{
    if rules.len() > 0 {
        assert(!rule_applies(rules[rules.len() - 1]));
        let rest = rules.drop_last();
        assert forall|i: int| 0 <= i < rest.len() implies !rule_applies(#[trigger] rest[i]) by {
            assert(rest[i] == rules[i]);
        }
        lemma_no_applicable_rule(rest);
    }
}

impl Library {
    /// Is this library used on this system (Windows)?
    pub fn is_compatible(&self) -> (r: bool)
        ensures
            r == rules_allow(self.rules@),
    {
        if self.rules.len() == 0 {
            return true;
        }
        let mut allow = false;
        let mut i: usize = 0;
        while i < self.rules.len()
            invariant
                i <= self.rules@.len(),
                allow == last_applicable_allows(self.rules@.take(i as int)),
            decreases self.rules.len() - i,
        {
            let rule = &self.rules[i];
            let os_matches = match &rule.os {
                Some(os_rule) => str_eq(os_rule.name.as_str(), "windows"),
                None => true,
            };
            if os_matches {
                allow = str_eq(rule.action.as_str(), "allow");
            }
            assert(self.rules@.take(i + 1).drop_last() =~= self.rules@.take(i as int));
            i = i + 1;
        }
        assert(self.rules@.take(i as int) =~= self.rules@);
        allow
    }
}

} // verus!
