//! What a compiled module exports and what it says about itself.
use vstd::prelude::*;

verus! {

/// A method that a canister exports, with its name.
pub enum WasmMethod {
    /// A method that may change the state of the canister.
    Update(String),
    /// A method whose changes are thrown away.
    Query(String),
    /// A method that the system calls.
    System(String),
}

/// A method as its kind and the characters of its name.
pub enum MethodName {
    Update(Seq<char>),
    Query(Seq<char>),
    System(Seq<char>),
}

impl View for WasmMethod {
    type V = MethodName;

    open spec fn view(&self) -> MethodName {
        match self {
            WasmMethod::Update(name) => MethodName::Update(name@),
            WasmMethod::Query(name) => MethodName::Query(name@),
            WasmMethod::System(name) => MethodName::System(name@),
        }
    }
}

impl WasmMethod {
    /// Whether this is the same method: of the same kind, with the same name.
    pub fn is_same(&self, other: &WasmMethod) -> (same: bool)
        ensures
            same == (self@ == other@),
    {
        match (self, other) {
            (WasmMethod::Update(a), WasmMethod::Update(b)) => *a == *b,
            (WasmMethod::Query(a), WasmMethod::Query(b)) => *a == *b,
            (WasmMethod::System(a), WasmMethod::System(b)) => *a == *b,
            _ => false,
        }
    }
}

/// The methods that occur in a list.
pub open spec fn method_set(methods: Seq<WasmMethod>) -> Set<MethodName> {
    methods.map_values(|method: WasmMethod| method@).to_set()
}

fn contains_method(methods: &Vec<WasmMethod>, method: &WasmMethod) -> (found: bool)
    ensures
        found == method_set(methods@).contains(method@),
{
    let mut i: usize = 0;
    while i < methods.len()
        invariant
            i <= methods@.len(),
            forall|j: int| 0 <= j < i ==> #[trigger] methods@[j]@ != method@,
        decreases methods@.len() - i,
    {
        if methods[i].is_same(method) {
            assert(methods@.map_values(|m: WasmMethod| m@)[i as int] == method@);
            return true;
        }
        i += 1;
    }
    false
}

/// The methods that a module exports. No method is held twice.
pub struct ExportedFunctions {
    methods: Vec<WasmMethod>,
}

impl View for ExportedFunctions {
    type V = Set<MethodName>;

    closed spec fn view(&self) -> Set<MethodName> {
        method_set(self.methods@)
    }
}

impl ExportedFunctions {
    #[verifier::type_invariant]
    spec fn holds_no_method_twice(&self) -> bool {
        self.methods@.map_values(|method: WasmMethod| method@).no_duplicates()
    }

    /// The set of the listed methods.
    pub fn new(methods: Vec<WasmMethod>) -> (exports: Self)
        ensures
            exports@ == method_set(methods@),
    {
        let mut rest = methods;
        let mut kept: Vec<WasmMethod> = Vec::new();
        while rest.len() > 0
            invariant
                kept@.map_values(|method: WasmMethod| method@).no_duplicates(),
                method_set(methods@) == method_set(rest@).union(method_set(kept@)),
            decreases rest@.len(),
        {
            let ghost rest_before = rest@;
            let ghost kept_before = kept@;
            if let Some(method) = rest.pop() {
                proof {
                    lemma_method_set_push(rest@, method);
                    assert(rest_before =~= rest@.push(method));
                }
                if !contains_method(&kept, &method) {
                    kept.push(method);
                    proof {
                        lemma_method_set_push(kept_before, method);
                        assert(kept@.map_values(|method: WasmMethod| method@)
                            =~= kept_before.map_values(|method: WasmMethod| method@).push(method@));
                    }
                }
                assert(method_set(methods@) =~= method_set(rest@).union(method_set(kept@)));
            }
        }
        assert(method_set(rest@).union(method_set(kept@)) =~= method_set(kept@));
        Self { methods: kept }
    }

    /// Whether the method is exported.
    pub fn has_method(&self, method: &WasmMethod) -> (exported: bool)
        ensures
            exported == self@.contains(method@),
    {
        contains_method(&self.methods, method)
    }
}

proof fn lemma_method_set_push(methods: Seq<WasmMethod>, method: WasmMethod)
    ensures
        method_set(methods.push(method)) == method_set(methods).insert(method@),
{
    let names = methods.map_values(|m: WasmMethod| m@);
    let pushed = methods.push(method).map_values(|m: WasmMethod| m@);
    assert(pushed =~= names.push(method@));
    assert forall|name: MethodName| pushed.to_set().contains(name) <==> names.to_set().insert(
        method@,
    ).contains(name) by {
        if names.contains(name) {
            let i = choose|i: int| 0 <= i < names.len() && names[i] == name;
            assert(pushed[i] == name);
        }
        if name == method@ {
            assert(pushed[names.len() as int] == name);
        }
    }
    assert(pushed.to_set() =~= names.to_set().insert(method@));
}

/// Who may read a custom section.
#[derive(Clone, Copy, Debug, PartialEq, Eq, Structural)]
pub enum CustomSectionType {
    Public,
    Private,
}

/// A named section of a module that is data about the module.
pub struct CustomSection {
    pub name: String,
    pub visibility: CustomSectionType,
    pub content: Vec<u8>,
}

/// The sections by their names. Of sections that share a name the last one counts.
pub open spec fn section_map(sections: Seq<CustomSection>) -> Map<Seq<char>, CustomSection>
    decreases sections.len(),
{
    if sections.len() == 0 {
        Map::empty()
    } else {
        section_map(sections.drop_last()).insert(sections.last().name@, sections.last())
    }
}

/// The custom sections of a module. No two have the same name.
pub struct WasmMetadata {
    sections: Vec<CustomSection>,
}

impl View for WasmMetadata {
    type V = Map<Seq<char>, CustomSection>;

    closed spec fn view(&self) -> Map<Seq<char>, CustomSection> {
        section_map(self.sections@)
    }
}

fn has_section(sections: &Vec<CustomSection>, name: &String) -> (found: bool)
    ensures
        found == section_map(sections@).dom().contains(name@),
{
    let mut i: usize = 0;
    while i < sections.len()
        invariant
            i <= sections@.len(),
            forall|j: int| 0 <= j < i ==> (#[trigger] sections@[j]).name@ != name@,
        decreases sections@.len() - i,
    {
        if sections[i].name == *name {
            proof {
                lemma_section_map_dom(sections@, name@);
            }
            return true;
        }
        i += 1;
    }
    proof {
        lemma_section_map_dom(sections@, name@);
    }
    false
}

impl WasmMetadata {
    #[verifier::type_invariant]
    spec fn names_differ(&self) -> bool {
        section_names(self.sections@).no_duplicates()
    }

    /// The metadata made of the listed sections.
    pub fn new(custom_sections: Vec<CustomSection>) -> (metadata: Self)
        ensures
            metadata@ == section_map(custom_sections@),
    {
        let mut rest = custom_sections;
        let mut kept: Vec<CustomSection> = Vec::new();
        while rest.len() > 0
            invariant
                section_names(kept@).no_duplicates(),
                section_map(custom_sections@) == section_map(rest@).union_prefer_right(
                    section_map(kept@),
                ),
            decreases rest@.len(),
        {
            let ghost rest_before = rest@;
            let ghost kept_before = kept@;
            if let Some(section) = rest.pop() {
                assert(rest_before.drop_last() =~= rest@);
                if !has_section(&kept, &section.name) {
                    kept.push(section);
                    proof {
                        lemma_section_map_dom(kept_before, section.name@);
                        assert(kept@.drop_last() =~= kept_before);
                        assert(section_names(kept@) =~= section_names(kept_before).push(
                            section.name@,
                        ));
                    }
                }
                assert(section_map(custom_sections@) =~= section_map(rest@).union_prefer_right(
                    section_map(kept@),
                ));
            }
        }
        assert(section_map(rest@).union_prefer_right(section_map(kept@)) =~= section_map(kept@));
        Self { sections: kept }
    }

    /// Whether there is a section of that name.
    pub fn contains_section(&self, name: &String) -> (found: bool)
        ensures
            found == self@.dom().contains(name@),
    {
        has_section(&self.sections, name)
    }
}

spec fn section_names(sections: Seq<CustomSection>) -> Seq<Seq<char>> {
    sections.map_values(|section: CustomSection| section.name@)
}

proof fn lemma_section_map_dom(sections: Seq<CustomSection>, name: Seq<char>)
    ensures
        section_map(sections).dom().contains(name) <==> exists|i: int|
            0 <= i < sections.len() && (#[trigger] sections[i]).name@ == name,
        section_map(sections).dom().contains(name) <==> section_names(sections).contains(name),
    decreases sections.len(),
{
    if sections.len() > 0 {
        let shorter = sections.drop_last();
        lemma_section_map_dom(shorter, name);
        if sections.last().name@ == name {
            assert(sections[sections.len() - 1].name@ == name);
        }
        if exists|i: int| 0 <= i < shorter.len() && (#[trigger] shorter[i]).name@ == name {
            let i = choose|i: int| 0 <= i < shorter.len() && (#[trigger] shorter[i]).name@ == name;
            assert(sections[i].name@ == name);
        }
        if exists|i: int| 0 <= i < sections.len() && (#[trigger] sections[i]).name@ == name {
            let i = choose|i: int|
                0 <= i < sections.len() && (#[trigger] sections[i]).name@ == name;
            if i < shorter.len() {
                assert(shorter[i].name@ == name);
            }
        }
    }
    if exists|i: int| 0 <= i < sections.len() && (#[trigger] sections[i]).name@ == name {
        let i = choose|i: int| 0 <= i < sections.len() && (#[trigger] sections[i]).name@ == name;
        assert(section_names(sections)[i] == name);
    }
    if section_names(sections).contains(name) {
        let i = choose|i: int|
            0 <= i < section_names(sections).len() && section_names(sections)[i] == name;
        assert(sections[i].name@ == name);
    }
}

} // verus!
