//! The runtime context: the capability registry, the audit log and settings.

use crate::memory::{InMemoryLog, Memory};
use crate::text::{eq_str, views};
use crate::tools::{Tool, ToolSpec};
use vstd::prelude::*;

verus! {

/// The capability registry, the audit log and the settings of one run.
pub struct Context {
    pub dry_run: bool,
    pub llm_provider: Option<String>,
    pub tools: Vec<ToolSpec>,
    pub memory: InMemoryLog,
}

pub open spec fn spec_names(t: Seq<ToolSpec>) -> Seq<Seq<char>> {
    t.map_values(|s: ToolSpec| s.name@)
}

/// The first capability registered under `name`, from index `i` on.
pub open spec fn find_spec(t: Seq<ToolSpec>, name: Seq<char>, i: int) -> Option<ToolSpec>
    decreases t.len() - i,
{
    if i < 0 || i >= t.len() {
        None
    } else if t[i].name@ == name {
        Some(t[i])
    } else {
        find_spec(t, name, i + 1)
    }
}

proof fn lemma_find_spec_at(t: Seq<ToolSpec>, name: Seq<char>, j: int, i: int)
    requires
        0 <= j <= i < t.len(),
        t[i].name@ == name,
        forall|k: int| j <= k < i ==> t[k].name@ != name,
    ensures
        find_spec(t, name, j) == Some(t[i]),
    decreases i - j,
{
    if j < i {
        lemma_find_spec_at(t, name, j + 1, i);
    }
}

proof fn lemma_find_spec_some(t: Seq<ToolSpec>, name: Seq<char>, i: int)
    requires
        0 <= i,
    ensures
        find_spec(t, name, i) is Some <==> exists|k: int| i <= k < t.len() && t[k].name@ == name,
    decreases t.len() - i,
{
    if i < t.len() && t[i].name@ != name {
        lemma_find_spec_some(t, name, i + 1);
        if exists|k: int| i <= k < t.len() && t[k].name@ == name {
            let k = choose|k: int| i <= k < t.len() && t[k].name@ == name;
            assert(k != i);
        }
    }
}

impl Context {
    /// The names of the registered capabilities.
    pub open spec fn registry(&self) -> Set<Seq<char>> {
        spec_names(self.tools@).to_set()
    }

    pub fn new() -> (r: Self)
        ensures
            !r.dry_run,
            r.llm_provider is None,
            r.registry() == Set::<Seq<char>>::empty(),
            r.memory@ == Seq::<(Seq<char>, Seq<char>)>::empty(),
    {
        let r = Self {
            dry_run: false,
            llm_provider: None,
            tools: Vec::new(),
            memory: InMemoryLog::new(),
        };
        assert(spec_names(r.tools@) =~= Seq::<Seq<char>>::empty());
        assert(r.registry() =~= Set::<Seq<char>>::empty());
        r
    }

    /// Registers a capability under its name, in place of one registered
    /// under the same name before; its metadata is what its `spec` gives.
    pub fn register_tool<T: Tool>(self, tool: T) -> (r: Self)
        ensures
            r.registry() == self.registry().insert(tool.tool_name()),
            find_spec(r.tools@, tool.tool_name(), 0) is Some,
            find_spec(r.tools@, tool.tool_name(), 0)->0@ == tool.spec_model(),
            r.dry_run == self.dry_run,
            r.llm_provider == self.llm_provider,
            r.memory == self.memory,
    {
        let mut this = self;
        let spec = tool.spec();
        let ghost before = spec_names(this.tools@);
        let mut i: usize = 0;
        while i < this.tools.len()
            invariant
                i <= this.tools.len(),
                this.tools@ == self.tools@,
                this.dry_run == self.dry_run,
                this.llm_provider == self.llm_provider,
                this.memory == self.memory,
                before == spec_names(self.tools@),
                spec.name@ == tool.tool_name(),
                spec@ == tool.spec_model(),
                forall|k: int| 0 <= k < i ==> this.tools@[k].name@ != spec.name@,
            decreases this.tools.len() - i,
        {
            if eq_str(this.tools[i].name.as_str(), spec.name.as_str()) {
                let ghost sv = spec;
                this.tools.set(i, spec);
                proof {
                    lemma_find_spec_at(this.tools@, tool.tool_name(), 0, i as int);
                    assert(this.tools@[i as int] == sv);
                }
                proof {
                    let after = spec_names(this.tools@);
                    assert(after =~= before.update(i as int, tool.tool_name()));
                    assert(before[i as int] == tool.tool_name());
                    assert(after.to_set() =~= before.to_set().insert(tool.tool_name())) by {
                        assert forall|x: Seq<char>| after.to_set().contains(x) implies before.to_set().insert(tool.tool_name()).contains(x) by {
                            let k = choose|k: int| 0 <= k < after.len() && after[k] == x;
                            if k != i {
                                assert(before[k] == x);
                            }
                        }
                        assert forall|x: Seq<char>| before.to_set().insert(tool.tool_name()).contains(x) implies after.to_set().contains(x) by {
                            if x == tool.tool_name() {
                                assert(after[i as int] == x);
                            } else {
                                let k = choose|k: int| 0 <= k < before.len() && before[k] == x;
                                assert(k != i);
                                assert(after[k] == x);
                            }
                        }
                    }
                }
                return this;
            }
            i = i + 1;
        }
        let ghost sv = spec;
        this.tools.push(spec);
        proof {
            lemma_find_spec_at(this.tools@, tool.tool_name(), 0, self.tools@.len() as int);
            assert(this.tools@[self.tools@.len() as int] == sv);
            let after = spec_names(this.tools@);
            assert(after =~= before.push(tool.tool_name()));
            assert(after.to_set() =~= before.to_set().insert(tool.tool_name())) by {
                assert forall|x: Seq<char>| after.to_set().contains(x) implies before.to_set().insert(tool.tool_name()).contains(x) by {
                    let k = choose|k: int| 0 <= k < after.len() && after[k] == x;
                    if k < before.len() {
                        assert(before[k] == x);
                    }
                }
                assert forall|x: Seq<char>| before.to_set().insert(tool.tool_name()).contains(x) implies after.to_set().contains(x) by {
                    if x == tool.tool_name() {
                        assert(after[before.len() as int] == x);
                    } else {
                        let k = choose|k: int| 0 <= k < before.len() && before[k] == x;
                        assert(after[k] == x);
                    }
                }
            }
        }
        this
    }

    pub fn with_llm(self, provider: &str) -> (r: Self)
        ensures
            r.llm_provider is Some && r.llm_provider->0@ == provider@,
            r.dry_run == self.dry_run,
            r.tools == self.tools,
            r.memory == self.memory,
    {
        let mut this = self;
        this.llm_provider = Some(String::from_str(provider));
        this
    }

    pub fn enable_dry_run(self) -> (r: Self)
        ensures
            r.dry_run,
            r.llm_provider == self.llm_provider,
            r.tools == self.tools,
            r.memory == self.memory,
    {
        let mut this = self;
        this.dry_run = true;
        this
    }

    /// The metadata of the capability registered under `name`.
    pub fn get_tool(&self, name: &str) -> (r: Option<&ToolSpec>)
        ensures
            r is Some <==> self.registry().contains(name@),
            match r {
                Some(t) => t.name@ == name@ && find_spec(self.tools@, name@, 0) == Some(*t),
                None => find_spec(self.tools@, name@, 0) is None,
            },
    {
        let mut i: usize = 0;
        while i < self.tools.len()
            invariant
                i <= self.tools.len(),
                forall|k: int| 0 <= k < i ==> self.tools@[k].name@ != name@,
                find_spec(self.tools@, name@, 0) == find_spec(self.tools@, name@, i as int),
            decreases self.tools.len() - i,
        {
            if eq_str(self.tools[i].name.as_str(), name) {
                assert(spec_names(self.tools@)[i as int] == name@);
                return Some(&self.tools[i]);
            }
            i = i + 1;
        }
        proof {
            if self.registry().contains(name@) {
                let k = choose|k: int|
                    0 <= k < spec_names(self.tools@).len() && spec_names(self.tools@)[k] == name@;
                assert(self.tools@[k].name@ == name@);
            }
        }
        None
    }

    /// Whether `find_spec` finds a capability exactly where it is registered.
    pub proof fn lemma_find_registered(&self, name: Seq<char>)
        ensures
            find_spec(self.tools@, name, 0) is Some <==> self.registry().contains(name),
    {
        lemma_find_spec_some(self.tools@, name, 0);
        if self.registry().contains(name) {
            let k = choose|k: int|
                0 <= k < spec_names(self.tools@).len() && spec_names(self.tools@)[k] == name;
            assert(self.tools@[k].name@ == name);
        }
        if exists|k: int| 0 <= k < self.tools@.len() && self.tools@[k].name@ == name {
            let k = choose|k: int| 0 <= k < self.tools@.len() && self.tools@[k].name@ == name;
            assert(spec_names(self.tools@)[k] == name);
        }
    }

    /// Whether a capability is registered under `name`.
    pub fn has_tool(&self, name: &str) -> (r: bool)
        ensures
            r == self.registry().contains(name@),
    {
        self.get_tool(name).is_some()
    }

    /// The names of the registered capabilities, in order of registration.
    pub fn tool_names(&self) -> (r: Vec<String>)
        ensures
            views(r@) == spec_names(self.tools@),
    {
        let mut r: Vec<String> = Vec::new();
        let mut i: usize = 0;
        while i < self.tools.len()
            invariant
                i <= self.tools.len(),
                views(r@) == spec_names(self.tools@).take(i as int),
            decreases self.tools.len() - i,
        {
            let ghost prev = r@;
            r.push(self.tools[i].name.clone());
            assert(views(r@) =~= views(prev).push(self.tools@[i as int].name@));
            assert(spec_names(self.tools@).take(i + 1) =~= spec_names(self.tools@).take(
                i as int,
            ).push(self.tools@[i as int].name@));
            i = i + 1;
        }
        assert(spec_names(self.tools@).take(self.tools.len() as int) =~= spec_names(self.tools@));
        r
    }

    pub fn memory(&self) -> (r: &InMemoryLog)
        ensures
            *r == self.memory,
    {
        &self.memory
    }

    pub fn memory_mut(&mut self) -> (r: &mut InMemoryLog)
        ensures
            *r == old(self).memory,
            final(self).memory == *final(r),
            final(self).tools == old(self).tools,
            final(self).dry_run == old(self).dry_run,
            final(self).llm_provider == old(self).llm_provider,
    {
        &mut self.memory
    }

    /// Appends an entry to the audit log.
    pub fn log(&mut self, label: &str, content: &str)
        ensures
            final(self).memory@ == old(self).memory@.push((label@, content@)),
            final(self).tools == old(self).tools,
            final(self).dry_run == old(self).dry_run,
            final(self).llm_provider == old(self).llm_provider,
    {
        self.memory.log(label, content);
    }
}

impl Default for Context {
    fn default() -> (r: Self)
        ensures
            r.registry() == Set::<Seq<char>>::empty(),
            r.memory@ == Seq::<(Seq<char>, Seq<char>)>::empty(),
    {
        Self::new()
    }
}

} // verus!
