//! The registry: the read-only mapping from tool name to tool metadata
//! that one command invocation works from. Loading and parsing the
//! on-disk registry file is the caller's business; the mapping semantics
//! (unique names, lookup by name) live here.

use vstd::prelude::*;
use vstd::string::*;
use crate::strutil::str_eq;

verus! {

/// One registry entry: the metadata needed to install, uninstall and
/// describe a tool.
#[derive(Clone)]
pub struct Tool {
    pub name: String,
    pub description: String,
    pub github_repo: String,
    pub install_method: String,
    pub binary_name: String,
    pub install_path: String,
}

/// Some tool in `s` carries the name `name`.
pub open spec fn spec_has_tool(s: Seq<Tool>, name: Seq<char>) -> bool {
    exists|i: int| 0 <= i < s.len() && s[i].name@ == name
}

/// A mapping from tool name to tool, with unique names.
pub struct Registry {
    tools: Vec<Tool>,
}

impl Registry {
    /// The tools the registry holds, in insertion order.
    pub closed spec fn spec_tools(self) -> Seq<Tool> {
        self.tools@
    }

    /// Well-formed: no two tools share a name.
    pub open spec fn wf(self) -> bool {
        forall|i: int, j: int|
            0 <= i < j < self.spec_tools().len() ==> self.spec_tools()[i].name@
                != self.spec_tools()[j].name@
    }

    /// An empty registry.
    pub fn new() -> (r: Registry)
        ensures
            r.wf(),
            r.spec_tools().len() == 0,
    {
        Registry { tools: Vec::new() }
    }

    /// Add a tool under its name. Refused (and the registry left
    /// unchanged) when the name is already taken.
    pub fn add(&mut self, tool: Tool) -> (added: bool)
        requires
            old(self).wf(),
        ensures
            final(self).wf(),
            added == !spec_has_tool(old(self).spec_tools(), tool.name@),
            added ==> final(self).spec_tools() == old(self).spec_tools().push(tool),
            !added ==> *final(self) == *old(self),
    {
        let n = self.tools.len();
        let mut k: usize = 0;
        while k < n
            invariant
                k <= n,
                n == self.tools@.len(),
                *self == *old(self),
                old(self).wf(),
                forall|j: int| 0 <= j < k ==> self.tools@[j].name@ != tool.name@,
            decreases n - k,
        {
            if str_eq(self.tools[k].name.as_str(), tool.name.as_str()) {
                proof {
                    assert(spec_has_tool(self.spec_tools(), tool.name@));
                }
                return false;
            }
            k += 1;
        }
        let ghost before = self.tools@;
        self.tools.push(tool);
        proof {
            assert forall|i: int, j: int|
                0 <= i < j < self.tools@.len() implies self.tools@[i].name@
                != self.tools@[j].name@ by {
                if j < before.len() {
                    assert(self.tools@[i] == before[i] && self.tools@[j] == before[j]);
                    assert(old(self).spec_tools()[i].name@ != old(self).spec_tools()[j].name@);
                } else {
                    assert(self.tools@[j] == tool && self.tools@[i] == before[i]);
                }
            }
        }
        true
    }

    /// Look a tool up by name: the entry carrying `name`, if one does.
    pub fn get(&self, name: &str) -> (r: Option<&Tool>)
        ensures
            r is Some <==> spec_has_tool(self.spec_tools(), name@),
            r matches Some(t) ==> t.name@ == name@ && exists|i: int|
                0 <= i < self.spec_tools().len() && self.spec_tools()[i] == *t,
    {
        let n = self.tools.len();
        let mut k: usize = 0;
        while k < n
            invariant
                k <= n,
                n == self.tools@.len(),
                forall|j: int| 0 <= j < k ==> self.tools@[j].name@ != name@,
            decreases n - k,
        {
            if str_eq(self.tools[k].name.as_str(), name) {
                return Some(&self.tools[k]);
            }
            k += 1;
        }
        None
    }

    /// The tools of the registry, for listing.
    pub fn tools(&self) -> (r: &Vec<Tool>)
        ensures
            r@ == self.spec_tools(),
    {
        &self.tools
    }
}

} // verus!
