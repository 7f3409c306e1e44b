//! Platform definitions: immutable per-platform metadata (id, name, PID list,
//! model-identification rules) and the catalog that resolves a platform id to
//! its definition. A definition is plain data handed in by the host; loading
//! and parsing the definition files is a collaborator's job.
use vstd::prelude::*;

use crate::copy_vec;

verus! {

/// One parameter identifier a platform can be queried for.
#[derive(Debug)]
pub struct Pid {
    pub id: u32,
    pub name: String,
    pub description: String,
}

/// The mathematical model of a `Pid`.
pub ghost struct PidView {
    pub id: u32,
    pub name: Seq<char>,
    pub description: Seq<char>,
}

impl View for Pid {
    type V = PidView;

    open spec fn view(&self) -> PidView {
        PidView { id: self.id, name: self.name@, description: self.description@ }
    }
}

impl Pid {
    /// A copy of this parameter identifier.
    pub fn duplicate(&self) -> (r: Pid)
        ensures
            r@ == self@,
    {
        Pid { id: self.id, name: self.name.clone(), description: self.description.clone() }
    }
}

/// One model-identification rule: an image belongs to `model` when the
/// pattern bytes stand at `offset` in the image.
#[derive(Debug)]
pub struct ModelRule {
    pub model: String,
    pub offset: usize,
    pub pattern: Vec<u8>,
}

/// The mathematical model of a `ModelRule`.
pub ghost struct ModelRuleView {
    pub model: Seq<char>,
    pub offset: usize,
    pub pattern: Seq<u8>,
}

impl View for ModelRule {
    type V = ModelRuleView;

    open spec fn view(&self) -> ModelRuleView {
        ModelRuleView { model: self.model@, offset: self.offset, pattern: self.pattern@ }
    }
}

impl ModelRule {
    /// A copy of this rule.
    pub fn duplicate(&self) -> (r: ModelRule)
        ensures
            r@ == self@,
    {
        ModelRule {
            model: self.model.clone(),
            offset: self.offset,
            pattern: copy_vec(&self.pattern),
        }
    }
}

/// Whether `rule`'s signature stands in `data`.
pub open spec fn rule_matches(data: Seq<u8>, rule: ModelRuleView) -> bool {
    &&& rule.offset + rule.pattern.len() <= data.len()
    &&& data.subrange(rule.offset as int, rule.offset + rule.pattern.len()) == rule.pattern
}

/// Immutable metadata of one vehicle platform, shared read-only by every
/// binding that uses it.
#[derive(Debug)]
pub struct Platform {
    pub id: String,
    pub name: String,
    pub pids: Vec<Pid>,
    pub models: Vec<ModelRule>,
    /// Whether this platform defines a firmware
    /// download mode.
    pub download_supported: bool,
    /// Whether this platform defines a diagnostic
    /// service.
    pub diagnostics_supported: bool,
}

/// The mathematical model of a `Platform`.
pub ghost struct PlatformView {
    pub id: Seq<char>,
    pub name: Seq<char>,
    pub pids: Seq<PidView>,
    pub models: Seq<ModelRuleView>,
    pub download_supported: bool,
    pub diagnostics_supported: bool,
}

impl View for Platform {
    type V = PlatformView;

    open spec fn view(&self) -> PlatformView {
        PlatformView {
            id: self.id@,
            name: self.name@,
            pids: self.pids@.map_values(|p: Pid| p@),
            models: self.models@.map_values(|m: ModelRule| m@),
            download_supported: self.download_supported,
            diagnostics_supported: self.diagnostics_supported,
        }
    }
}

/// `identify` returns `None` exactly when no rule of the platform matches.
pub open spec fn no_rule_matches(models: Seq<ModelRuleView>, data: Seq<u8>) -> bool {
    forall|i: int| 0 <= i < models.len() ==> !rule_matches(data, models[i])
}

/// Whether rule `i` is the first whose signature stands in `data`.
pub open spec fn is_first_match(models: Seq<ModelRuleView>, data: Seq<u8>, i: int) -> bool {
    &&& 0 <= i < models.len()
    &&& rule_matches(data, models[i])
    &&& forall|j: int| 0 <= j < i ==> !rule_matches(data, models[j])
}

impl Platform {
    /// A copy of this definition, shared with a new binding.
    pub fn duplicate(&self) -> (r: Platform)
        ensures
            r@ == self@,
    {
        let mut pids: Vec<Pid> = Vec::new();
        let mut i: usize = 0;
        while i < self.pids.len()
            invariant
                0 <= i <= self.pids.len(),
                self@.pids.len() == self.pids.len(),
                pids@.len() == i,
                forall|k: int| 0 <= k < i ==> #[trigger] pids@[k]@ == self@.pids[k],
            decreases self.pids.len() - i,
        {
            pids.push(self.pids[i].duplicate());
            i += 1;
        }
        let mut models: Vec<ModelRule> = Vec::new();
        let mut j: usize = 0;
        while j < self.models.len()
            invariant
                0 <= j <= self.models.len(),
                self@.models.len() == self.models.len(),
                models@.len() == j,
                forall|k: int| 0 <= k < j ==> #[trigger] models@[k]@ == self@.models[k],
            decreases self.models.len() - j,
        {
            models.push(self.models[j].duplicate());
            j += 1;
        }
        proof {
            assert(pids@.map_values(|p: Pid| p@) =~= self@.pids);
            assert(models@.map_values(|m: ModelRule| m@) =~= self@.models);
        }
        Platform {
            id: self.id.clone(),
            name: self.name.clone(),
            pids,
            models,
            download_supported: self.download_supported,
            diagnostics_supported: self.diagnostics_supported,
        }
    }

    /// Matches `data` against this platform's model rules and returns the
    /// model of the first rule whose signature stands in the image.
    pub fn identify(&self, data: &Vec<u8>) -> (r: Option<String>)
        ensures
            r is None <==> no_rule_matches(self@.models, data@),
            r matches Some(m) ==> exists|i: int|
                #[trigger] is_first_match(self@.models, data@, i) && m@ == self@.models[i].model,
    {
        let mut i: usize = 0;
        while i < self.models.len()
            invariant
                0 <= i <= self.models.len(),
                self@.models.len() == self.models.len(),
                forall|j: int| 0 <= j < i ==> !rule_matches(data@, self@.models[j]),
            decreases self.models.len() - i,
        {
            assert(self@.models[i as int] == self.models[i as int]@);
            if signature_present(data, self.models[i].offset, &self.models[i].pattern) {
                let m = self.models[i].model.clone();
                proof {
                    assert(is_first_match(self@.models, data@, i as int));
                }
                return Some(m);
            }
            i += 1;
        }
        None
    }
}

/// Whether `pattern` stands byte for byte at `offset` in `data`.
fn signature_present(data: &Vec<u8>, offset: usize, pattern: &Vec<u8>) -> (r: bool)
    ensures
        r == rule_matches(
            data@,
            ModelRuleView { model: Seq::<char>::empty(), offset, pattern: pattern@ },
        ),
{
    if pattern.len() > data.len() || offset > data.len() - pattern.len() {
        return false;
    }
    let mut j: usize = 0;
    while j < pattern.len()
        invariant
            0 <= j <= pattern.len(),
            offset + pattern.len() <= data.len(),
            forall|k: int| 0 <= k < j ==> data@[offset + k] == pattern@[k],
        decreases pattern.len() - j,
    {
        if data[offset + j] != pattern[j] {
            assert(data@.subrange(offset as int, offset + pattern@.len())[j as int]
                != pattern@[j as int]);
            return false;
        }
        j += 1;
    }
    assert(data@.subrange(offset as int, offset + pattern@.len()) =~= pattern@);
    true
}

/// The ordered catalog of installed platform definitions.
#[derive(Debug)]
pub struct Definitions {
    pub definitions: Vec<Platform>,
}

/// The mathematical model of the catalog: the definitions in order.
pub ghost struct DefinitionsView {
    pub definitions: Seq<PlatformView>,
}

impl View for Definitions {
    type V = DefinitionsView;

    open spec fn view(&self) -> DefinitionsView {
        DefinitionsView { definitions: self.definitions@.map_values(|p: Platform| p@) }
    }
}

/// Whether some definition in the catalog carries the platform id.
pub open spec fn has_platform(defs: Seq<PlatformView>, id: Seq<char>) -> bool {
    exists|i: int| 0 <= i < defs.len() && #[trigger] defs[i].id == id
}

/// Whether `p` is the first definition in the catalog carrying the id.
pub open spec fn is_first_platform(defs: Seq<PlatformView>, id: Seq<char>, p: PlatformView) -> bool {
    exists|i: int|
        {
            &&& 0 <= i < defs.len()
            &&& #[trigger] defs[i].id == id
            &&& p == defs[i]
            &&& forall|j: int| 0 <= j < i ==> defs[j].id != id
        }
}

impl Definitions {
    /// An empty catalog.
    pub fn new() -> (r: Definitions)
        ensures
            r@.definitions.len() == 0,
    {
        Definitions { definitions: Vec::new() }
    }

    /// Resolves a platform id to the first definition that carries it.
    pub fn find(&self, id: &str) -> (r: Option<&Platform>)
        ensures
            r is None <==> !has_platform(self@.definitions, id@),
            r matches Some(p) ==> is_first_platform(self@.definitions, id@, p@),
    {
        let wanted: String = id.to_owned();
        let mut i: usize = 0;
        while i < self.definitions.len()
            invariant
                0 <= i <= self.definitions.len(),
                self@.definitions.len() == self.definitions.len(),
                wanted@ == id@,
                forall|j: int| 0 <= j < i ==> self@.definitions[j].id != id@,
            decreases self.definitions.len() - i,
        {
            assert(self@.definitions[i as int] == self.definitions[i as int]@);
            if self.definitions[i].id == wanted {
                proof {
                    assert(self@.definitions[i as int].id == id@);
                    assert(has_platform(self@.definitions, id@)) by {
                        assert(0 <= i < self@.definitions.len()
                            && self@.definitions[i as int].id == id@);
                    }
                }
                return Some(&self.definitions[i]);
            }
            i += 1;
        }
        None
    }
}

} // verus!
