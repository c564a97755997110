//! The security gate: a permission policy loaded once at startup and
//! consulted, read-only, before every tool invocation.

use vstd::prelude::*;

verus! {

/// The permission policy: a global default and per-tool rules, each an
/// action text ("allow" or "deny", as the persisted policy document
/// spells them). Later rules for the same tool shadow earlier ones,
/// so `add_rule` puts the newest rule first.
pub struct SecurityConfig {
    pub version: String,
    pub global_policy: String,
    pub rules: Vec<(String, String)>,
}

/// The action the policy names for `name`: the first rule whose tool
/// name matches, if any.
pub open spec fn rule_for(rules: Seq<(String, String)>, name: Seq<char>) -> Option<Seq<char>>
    decreases rules.len(),
{
    if rules.len() == 0 {
        None
    } else if rules[0].0@ == name {
        Some(rules[0].1@)
    } else {
        rule_for(rules.drop_first(), name)
    }
}

/// The verdict for one tool: the per-tool rule where one exists,
/// else the global default. A tool is permitted exactly when the
/// deciding text is "allow".
pub open spec fn spec_permits(cfg: SecurityConfig, name: Seq<char>) -> bool {
    match rule_for(cfg.rules@, name) {
        Some(action) => action == "allow"@,
        None => cfg.global_policy@ == "allow"@,
    }
}

impl SecurityConfig {
    /// A policy with no per-tool rules: every verdict falls back to
    /// the global default.
    pub fn new(version: String, global_policy: String) -> (cfg: Self)
        ensures
            cfg.version == version,
            cfg.global_policy == global_policy,
            cfg.rules@ =~= Seq::<(String, String)>::empty(),
    {
        Self { version, global_policy, rules: Vec::new() }
    }

    /// Adds a rule for one tool; it shadows any earlier rule for the
    /// same name, as a later insert into a map would.
    pub fn add_rule(&mut self, name: String, action: String)
        ensures
            final(self).rules@ =~= seq![(name, action)] + old(self).rules@,
            final(self).version == old(self).version,
            final(self).global_policy == old(self).global_policy,
    {
        self.rules.insert(0, (name, action));
    }

    /// Looks the tool up in the rules; if a rule exists its action
    /// decides, else the global default does.
    pub fn check_permission(&self, tool_name: &str) -> (allowed: bool)
        ensures
            allowed == spec_permits(*self, tool_name@),
    {
        let key: String = tool_name.to_owned();
        let allow: String = "allow".to_owned();
        let n = self.rules.len();
        let mut i: usize = 0;
        proof {
            assert(self.rules@.skip(0) =~= self.rules@);
        }
        while i < n
            invariant
                n == self.rules@.len(),
                i <= n,
                key@ == tool_name@,
                allow@ == "allow"@,
                rule_for(self.rules@, tool_name@) == rule_for(
                    self.rules@.skip(i as int),
                    tool_name@,
                ),
            decreases n - i,
        {
            proof {
                assert(self.rules@.skip(i as int)[0] == self.rules@[i as int]);
            }
            if self.rules[i].0 == key {
                return self.rules[i].1 == allow;
            }
            proof {
                assert(self.rules@.skip(i as int).drop_first() =~= self.rules@.skip(i + 1));
            }
            i += 1;
        }
        self.global_policy == allow
    }
}

/// For every tool name absent from the rules, the verdict is the
/// global default; for every name present, the verdict is that rule's
/// action, whatever the global default says.
pub proof fn lemma_gate_verdict(cfg: SecurityConfig, name: Seq<char>)
    ensures
        rule_for(cfg.rules@, name) is None ==> spec_permits(cfg, name) == (cfg.global_policy@
            == "allow"@),
        forall|action: Seq<char>|
            rule_for(cfg.rules@, name) == Some(action) ==> spec_permits(cfg, name) == (action
                == "allow"@),
{
}

} // verus!
