//! The intermediate representation: one [`Blueprint`] per source file.

use vstd::prelude::*;

verus! {

/// Access modifier of a documented construct.
#[derive(Debug, Clone, Copy, PartialEq, Eq, Structural)]
pub enum Visibility {
    Public,
    Private,
    Protected,
    Internal,
}

/// Prose taken from comments or docstrings. Absent parts stay absent.
#[derive(Debug, Clone, PartialEq)]
pub struct Documentation {
    pub summary: Option<String>,
    pub description: Option<String>,
    pub examples: Vec<String>,
}

/// One argument of a function or method.
#[derive(Debug, Clone, PartialEq)]
pub struct Parameter {
    pub name: String,
    pub type_annotation: Option<String>,
    pub default_value: Option<String>,
}

/// Parameters and return type of a function or method.
#[derive(Debug, Clone, PartialEq)]
pub struct Signature {
    pub parameters: Vec<Parameter>,
    pub return_type: Option<String>,
}

/// A field or attribute of a class.
#[derive(Debug, Clone, PartialEq)]
pub struct Property {
    pub name: String,
    pub visibility: Visibility,
    pub type_annotation: Option<String>,
    pub documentation: Documentation,
}

/// A function that belongs to a class.
#[derive(Debug, Clone, PartialEq)]
pub struct Method {
    pub name: String,
    pub visibility: Visibility,
    pub is_static: bool,
    pub signature: Signature,
    pub documentation: Documentation,
}

/// A function at module scope.
#[derive(Debug, Clone, PartialEq)]
pub struct Function {
    pub name: String,
    pub visibility: Visibility,
    pub signature: Signature,
    pub documentation: Documentation,
}

/// A class, interface or struct with its members.
#[derive(Debug, Clone, PartialEq)]
pub struct Class {
    pub name: String,
    pub visibility: Visibility,
    pub methods: Vec<Method>,
    pub properties: Vec<Property>,
    pub documentation: Documentation,
}

/// A file or namespace.
#[derive(Debug, Clone, PartialEq)]
pub struct Module {
    pub name: String,
    pub documentation: Documentation,
}

/// A documentable construct at module scope. Elements never nest.
#[derive(Debug, Clone, PartialEq)]
pub enum Element {
    Module(Module),
    Class(Class),
    Function(Function),
}

/// The structural record of one source file.
#[derive(Debug, Clone, PartialEq)]
pub struct Blueprint {
    pub source_path: String,
    pub language: String,
    pub elements: Vec<Element>,
    pub dependencies: Vec<String>,
}

/// [`Documentation`] as plain text.
pub struct DocumentationModel {
    pub summary: Option<Seq<char>>,
    pub description: Option<Seq<char>>,
    pub examples: Seq<Seq<char>>,
}

/// [`Parameter`] as plain text.
pub struct ParameterModel {
    pub name: Seq<char>,
    pub type_annotation: Option<Seq<char>>,
    pub default_value: Option<Seq<char>>,
}

/// [`Signature`] as plain text.
pub struct SignatureModel {
    pub parameters: Seq<ParameterModel>,
    pub return_type: Option<Seq<char>>,
}

/// [`Property`] as plain text.
pub struct PropertyModel {
    pub name: Seq<char>,
    pub visibility: Visibility,
    pub type_annotation: Option<Seq<char>>,
    pub documentation: DocumentationModel,
}

/// [`Method`] as plain text.
pub struct MethodModel {
    pub name: Seq<char>,
    pub visibility: Visibility,
    pub is_static: bool,
    pub signature: SignatureModel,
    pub documentation: DocumentationModel,
}

/// [`Function`] as plain text.
pub struct FunctionModel {
    pub name: Seq<char>,
    pub visibility: Visibility,
    pub signature: SignatureModel,
    pub documentation: DocumentationModel,
}

/// [`Class`] as plain text.
pub struct ClassModel {
    pub name: Seq<char>,
    pub visibility: Visibility,
    pub methods: Seq<MethodModel>,
    pub properties: Seq<PropertyModel>,
    pub documentation: DocumentationModel,
}

/// [`Module`] as plain text.
pub struct ModuleModel {
    pub name: Seq<char>,
    pub documentation: DocumentationModel,
}

/// [`Element`] as plain text.
pub enum ElementModel {
    Module(ModuleModel),
    Class(ClassModel),
    Function(FunctionModel),
}

/// [`Blueprint`] as plain text.
pub struct BlueprintModel {
    pub source_path: Seq<char>,
    pub language: Seq<char>,
    pub elements: Seq<ElementModel>,
    pub dependencies: Seq<Seq<char>>,
}

impl View for Documentation {
    type V = DocumentationModel;

    open spec fn view(&self) -> DocumentationModel {
        DocumentationModel {
            summary: opt_text(self.summary),
            description: opt_text(self.description),
            examples: Seq::new(self.examples@.len(), |i: int| self.examples@[i]@),
        }
    }
}

impl View for Parameter {
    type V = ParameterModel;

    open spec fn view(&self) -> ParameterModel {
        ParameterModel {
            name: self.name@,
            type_annotation: opt_text(self.type_annotation),
            default_value: opt_text(self.default_value),
        }
    }
}

/// The parameters of a list as plain text.
pub open spec fn parameter_models(items: Seq<Parameter>) -> Seq<ParameterModel> {
    Seq::new(items.len(), |i: int| items[i]@)
}

impl View for Signature {
    type V = SignatureModel;

    open spec fn view(&self) -> SignatureModel {
        SignatureModel {
            parameters: parameter_models(self.parameters@),
            return_type: opt_text(self.return_type),
        }
    }
}

impl View for Property {
    type V = PropertyModel;

    open spec fn view(&self) -> PropertyModel {
        PropertyModel {
            name: self.name@,
            visibility: self.visibility,
            type_annotation: opt_text(self.type_annotation),
            documentation: self.documentation@,
        }
    }
}

/// The properties of a list as plain text.
pub open spec fn property_models(items: Seq<Property>) -> Seq<PropertyModel> {
    Seq::new(items.len(), |i: int| items[i]@)
}

impl View for Method {
    type V = MethodModel;

    open spec fn view(&self) -> MethodModel {
        MethodModel {
            name: self.name@,
            visibility: self.visibility,
            is_static: self.is_static,
            signature: self.signature@,
            documentation: self.documentation@,
        }
    }
}

/// The methods of a list as plain text.
pub open spec fn method_models(items: Seq<Method>) -> Seq<MethodModel> {
    Seq::new(items.len(), |i: int| items[i]@)
}

impl View for Function {
    type V = FunctionModel;

    open spec fn view(&self) -> FunctionModel {
        FunctionModel {
            name: self.name@,
            visibility: self.visibility,
            signature: self.signature@,
            documentation: self.documentation@,
        }
    }
}

impl View for Class {
    type V = ClassModel;

    open spec fn view(&self) -> ClassModel {
        ClassModel {
            name: self.name@,
            visibility: self.visibility,
            methods: method_models(self.methods@),
            properties: property_models(self.properties@),
            documentation: self.documentation@,
        }
    }
}

impl View for Module {
    type V = ModuleModel;

    open spec fn view(&self) -> ModuleModel {
        ModuleModel { name: self.name@, documentation: self.documentation@ }
    }
}

impl View for Element {
    type V = ElementModel;

    open spec fn view(&self) -> ElementModel {
        match self {
            Element::Module(m) => ElementModel::Module(m@),
            Element::Class(c) => ElementModel::Class(c@),
            Element::Function(f) => ElementModel::Function(f@),
        }
    }
}

/// The elements of a list as plain text.
pub open spec fn element_models(items: Seq<Element>) -> Seq<ElementModel> {
    Seq::new(items.len(), |i: int| items[i]@)
}

impl View for Blueprint {
    type V = BlueprintModel;

    open spec fn view(&self) -> BlueprintModel {
        BlueprintModel {
            source_path: self.source_path@,
            language: self.language@,
            elements: element_models(self.elements@),
            dependencies: crate::text::texts(self.dependencies@),
        }
    }
}

/// Documentation with nothing in it, as plain text.
pub open spec fn no_documentation() -> DocumentationModel {
    DocumentationModel { summary: None, description: None, examples: Seq::empty() }
}

/// The name that a dependency list never holds: a file does not depend on itself.
pub open spec fn self_name() -> Seq<char> {
    "self"@
}

/// No two entries of a list of names are the same text.
pub open spec fn distinct_names(names: Seq<String>) -> bool {
    forall|i: int, j: int| 0 <= i < j < names.len() ==> names[i]@ != names[j]@
}

/// The view of an optional string.
pub open spec fn opt_text(o: Option<String>) -> Option<Seq<char>> {
    match o {
        Some(s) => Some(s@),
        None => None,
    }
}

/// The number of classes among the elements.
pub open spec fn class_count(elements: Seq<Element>) -> nat
    decreases elements.len(),
{
    if elements.len() == 0 {
        0
    } else {
        class_count(elements.drop_last()) + if elements.last() is Class {
            1nat
        } else {
            0nat
        }
    }
}

/// The number of module-level functions among the elements.
pub open spec fn function_count(elements: Seq<Element>) -> nat
    decreases elements.len(),
{
    if elements.len() == 0 {
        0
    } else {
        function_count(elements.drop_last()) + if elements.last() is Function {
            1nat
        } else {
            0nat
        }
    }
}

impl Documentation {
    /// Documentation with nothing in it.
    pub fn empty() -> (r: Documentation)
        ensures
            r@ == no_documentation(),
    {
        let r = Documentation { summary: None, description: None, examples: Vec::new() };
        assert(r@.examples =~= Seq::<Seq<char>>::empty());
        r
    }
}

/// The first `n` names in the form that a dependency list has: in the
/// order of strings, each once, and without the name `self`.
pub open spec fn canonical(names: Seq<Seq<char>>, n: nat) -> Seq<Seq<char>>
    decreases n,
{
    if n == 0 {
        Seq::empty()
    } else {
        let before = canonical(names, (n - 1) as nat);
        if names[n - 1] == self_name() {
            before
        } else {
            crate::names::inserted(before, names[n - 1])
        }
    }
}

/// A canonical list is in strict order, never holds `self`, and holds
/// exactly the other names that went in.
pub proof fn lemma_canonical(names: Seq<Seq<char>>, n: nat)
    requires
        n <= names.len(),
    ensures
        crate::names::strictly_sorted(canonical(names, n)),
        !canonical(names, n).contains(self_name()),
        forall|x: Seq<char>|
            #![trigger canonical(names, n).contains(x)]
            canonical(names, n).contains(x) <==> (x != self_name() && names.take(n as int).contains(
                x,
            )),
    decreases n,
{
    if n == 0 {
        assert(names.take(0).len() == 0);
    } else {
        let before = canonical(names, (n - 1) as nat);
        lemma_canonical(names, (n - 1) as nat);
        crate::names::lemma_inserted_sorted(before, names[n - 1]);
        let now = canonical(names, n);
        assert forall|x: Seq<char>| #![trigger now.contains(x)]
            now.contains(x) <==> (x != self_name() && names.take(n as int).contains(x)) by {
            let shorter = names.take(n - 1);
            let longer = names.take(n as int);
            assert(longer =~= shorter.push(names[n - 1]));
            if shorter.contains(x) {
                let k = choose|k: int| 0 <= k < shorter.len() && shorter[k] == x;
                assert(longer[k] == x);
            }
            if longer.contains(x) {
                let k = choose|k: int| 0 <= k < longer.len() && longer[k] == x;
                if k < n - 1 {
                    assert(shorter[k] == x);
                }
            }
            assert(longer[n - 1] == names[n - 1]);
            assert(before.contains(x) <==> (x != self_name() && shorter.contains(x)));
        }
    }
}

impl Blueprint {
    /// Makes the record of a source file. The dependencies are put in the
    /// order of strings, each once, and `self` is left out.
    pub fn new(
        source_path: String,
        language: String,
        elements: Vec<Element>,
        dependencies: Vec<String>,
    ) -> (r: Blueprint)
        ensures
            r.source_path == source_path,
            r.language == language,
            r.elements == elements,
            crate::text::texts(r.dependencies@) == canonical(
                crate::text::texts(dependencies@),
                dependencies@.len(),
            ),
            r.well_formed(),
    {
        let ghost wanted = crate::text::texts(dependencies@);
        let mut kept: Vec<String> = Vec::new();
        let mut i: usize = 0;
        assert(crate::text::texts(kept@) =~= canonical(wanted, 0));
        while i < dependencies.len()
            invariant
                i <= dependencies.len(),
                wanted == crate::text::texts(dependencies@),
                crate::text::texts(kept@) == canonical(wanted, i as nat),
            decreases dependencies.len() - i,
        {
            if !crate::text::str_eq(dependencies[i].as_str(), "self") {
                crate::names::insert_sorted(&mut kept, dependencies[i].clone());
            }
            i = i + 1;
        }
        let r = Blueprint { source_path, language, elements, dependencies: kept };
        proof {
            let list = crate::text::texts(r.dependencies@);
            lemma_canonical(wanted, dependencies@.len() as nat);
            crate::names::lemma_sorted_is_distinct(list);
            assert forall|i: int, j: int| 0 <= i < j < r.dependencies@.len() implies r.dependencies@[i]@
                != r.dependencies@[j]@ by {
                assert(list[i] == r.dependencies@[i]@);
                assert(list[j] == r.dependencies@[j]@);
            }
            assert forall|i: int| 0 <= i < r.dependencies@.len() implies (
            #[trigger] r.dependencies@[i])@ != self_name() by {
                assert(list[i] == r.dependencies@[i]@);
                assert(list.contains(list[i]));
            }
        }
        r
    }

    /// The dependency list names each module once and never names `self`.
    pub open spec fn well_formed(&self) -> bool {
        &&& distinct_names(self.dependencies@)
        &&& forall|i: int|
            0 <= i < self.dependencies@.len() ==> (#[trigger] self.dependencies@[i])@
                != self_name()
    }

    /// Counts the classes of the file.
    pub fn count_classes(&self) -> (n: usize)
        ensures
            n == class_count(self.elements@),
    {
        let mut n: usize = 0;
        let mut i: usize = 0;
        while i < self.elements.len()
            invariant
                i <= self.elements.len(),
                n <= i,
                n == class_count(self.elements@.take(i as int)),
            decreases self.elements.len() - i,
        {
            proof {
                crate::text::lemma_take_step(self.elements@, i as int);
            }
            match &self.elements[i] {
                Element::Class(_) => {
                    n = n + 1;
                },
                _ => {},
            }
            i = i + 1;
        }
        assert(self.elements@.take(self.elements.len() as int) =~= self.elements@);
        n
    }

    /// Counts the module-level functions of the file.
    pub fn count_functions(&self) -> (n: usize)
        ensures
            n == function_count(self.elements@),
    {
        let mut n: usize = 0;
        let mut i: usize = 0;
        while i < self.elements.len()
            invariant
                i <= self.elements.len(),
                n <= i,
                n == function_count(self.elements@.take(i as int)),
            decreases self.elements.len() - i,
        {
            proof {
                crate::text::lemma_take_step(self.elements@, i as int);
            }
            match &self.elements[i] {
                Element::Function(_) => {
                    n = n + 1;
                },
                _ => {},
            }
            i = i + 1;
        }
        assert(self.elements@.take(self.elements.len() as int) =~= self.elements@);
        n
    }
}

} // verus!
