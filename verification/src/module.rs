//! The host's protocol for a module, as data: names are declared first, and
//! values are then exported under them, one by one and once more together
//! as the default object.

use vstd::prelude::*;
use crate::failure::Failure;

verus! {

/// A native operation that a script can call.
#[derive(Clone, Copy, Debug, PartialEq, Eq, Structural)]
pub enum Operation {
    GenerateV1,
    GenerateV3,
    GenerateV4,
    GenerateV5,
    Stringify,
    Validate,
    Version,
    Construct,
    CanParse,
    BuildSearchParams,
}

/// What a name is bound to.
#[derive(Debug)]
pub enum Binding {
    /// A function, with the text constants that hang on it by name.
    Function { operation: Operation, fields: Vec<(String, String)> },
    /// A text constant.
    Text(String),
}

/// A value under its name.
#[derive(Debug)]
pub struct Export {
    pub name: String,
    pub value: Binding,
}

/// A `Binding` with its texts as characters.
pub enum BindingView {
    Function { operation: Operation, fields: Seq<(Seq<char>, Seq<char>)> },
    Text(Seq<char>),
}

/// An `Export` with its texts as characters.
pub struct ExportView {
    pub name: Seq<char>,
    pub value: BindingView,
}

/// Pairs of texts as pairs of their characters.
pub open spec fn fields_view(fields: Seq<(String, String)>) -> Seq<(Seq<char>, Seq<char>)> {
    Seq::new(fields.len(), |i: int| (fields[i].0@, fields[i].1@))
}

impl View for Binding {
    type V = BindingView;

    open spec fn view(&self) -> BindingView {
        match *self {
            Binding::Function { operation, fields } => BindingView::Function {
                operation,
                fields: fields_view(fields@),
            },
            Binding::Text(text) => BindingView::Text(text@),
        }
    }
}

impl View for Export {
    type V = ExportView;

    open spec fn view(&self) -> ExportView {
        ExportView { name: self.name@, value: self.value@ }
    }
}

/// Exports as their views, in their order.
pub open spec fn exports_view(exports: Seq<Export>) -> Seq<ExportView> {
    Seq::new(exports.len(), |i: int| exports[i]@)
}

/// The names of exports, in their order.
pub open spec fn names_of(exports: Seq<ExportView>) -> Seq<Seq<char>> {
    Seq::new(exports.len(), |i: int| exports[i].name)
}

/// Whether every one of `names` is among `declared`.
pub open spec fn all_declared(declared: Seq<Seq<char>>, names: Seq<Seq<char>>) -> bool {
    forall|i: int| 0 <= i < names.len() ==> declared.contains(#[trigger] names[i])
}

/// The name under which the default object is exported.
pub open spec fn default_name() -> Seq<char> {
    "default"@
}

impl Binding {
    /// A copy with the same texts.
    pub fn duplicate(&self) -> (r: Binding)
        ensures
            r@ == self@,
    {
        match self {
            Binding::Function { operation, fields } => {
                let mut copy: Vec<(String, String)> = Vec::new();
                let mut i: usize = 0;
                while i < fields.len()
                    invariant
                        i <= fields.len(),
                        copy@.len() == i,
                        forall|k: int|
                            0 <= k < i ==> (#[trigger] copy@[k]).0@ == fields@[k].0@ && copy@[k].1@
                                == fields@[k].1@,
                    decreases fields.len() - i,
                {
                    copy.push((fields[i].0.clone(), fields[i].1.clone()));
                    i += 1;
                }
                assert(fields_view(copy@) =~= fields_view(fields@));
                Binding::Function { operation: *operation, fields: copy }
            },
            Binding::Text(text) => Binding::Text(text.clone()),
        }
    }
}

impl Export {
    /// A copy with the same name and the same value.
    pub fn duplicate(&self) -> (r: Export)
        ensures
            r@ == self@,
    {
        Export { name: self.name.clone(), value: self.value.duplicate() }
    }
}

/// The names that a module has declared, in the order of their
/// declaration.
#[derive(Debug)]
pub struct Declarations {
    names: Vec<String>,
}

impl View for Declarations {
    type V = Seq<Seq<char>>;

    closed spec fn view(&self) -> Seq<Seq<char>> {
        Seq::new(self.names@.len(), |i: int| self.names@[i]@)
    }
}

impl Declarations {
    /// No name declared yet.
    pub fn new() -> (r: Declarations)
        ensures
            r@ == Seq::<Seq<char>>::empty(),
    {
        Declarations { names: Vec::new() }
    }

    /// Declares one more name.
    pub fn declare(&mut self, name: &str)
        ensures
            final(self)@ == old(self)@.push(name@),
    {
        self.names.push(name.to_owned());
    }

    /// Whether a name has been declared.
    pub fn contains(&self, name: &str) -> (r: bool)
        ensures
            r == self@.contains(name@),
    {
        let wanted = name.to_owned();
        let mut i: usize = 0;
        while i < self.names.len()
            invariant
                i <= self.names.len(),
                wanted@ == name@,
                forall|k: int| 0 <= k < i ==> self.names@[k]@ != name@,
            decreases self.names.len() - i,
        {
            if self.names[i] == wanted {
                assert(self@[i as int] == name@);
                return true;
            }
            i += 1;
        }
        false
    }

    /// The declared names, in the order of their declaration.
    pub fn names(&self) -> (r: &Vec<String>)
        ensures
            r@.len() == self@.len(),
            forall|i: int| 0 <= i < r@.len() ==> (#[trigger] r@[i])@ == self@[i],
    {
        &self.names
    }
}

/// What a module has exported: each value under its declared name, and the
/// default object, whose properties are exports themselves.
#[derive(Debug)]
pub struct Exports {
    declared: Declarations,
    named: Vec<Export>,
    default: Option<Vec<Export>>,
}

impl Exports {
    /// The names that may be exported.
    pub closed spec fn declared(&self) -> Seq<Seq<char>> {
        self.declared@
    }

    /// The named exports so far, in their order.
    pub closed spec fn named(&self) -> Seq<ExportView> {
        exports_view(self.named@)
    }

    /// The properties of the default object, once it is exported.
    pub closed spec fn default_object(&self) -> Option<Seq<ExportView>> {
        match self.default {
            Some(object) => Some(exports_view(object@)),
            None => None,
        }
    }

    /// Nothing exported yet, under the names declared.
    pub fn new(declared: Declarations) -> (r: Exports)
        ensures
            r.declared() == declared@,
            r.named() == Seq::<ExportView>::empty(),
            r.default_object().is_none(),
    {
        Exports { declared, named: Vec::new(), default: None }
    }

    /// Exports one value under its name, which must have been declared.
    pub fn export(&mut self, export: Export) -> (r: Result<(), Failure>)
        ensures
            r is Ok <==> old(self).declared().contains(export@.name),
            r is Ok ==> final(self).named() == old(self).named().push(export@),
            r is Ok ==> final(self).declared() == old(self).declared(),
            r is Ok ==> final(self).default_object() == old(self).default_object(),
            r is Err ==> r == Err::<(), Failure>(Failure::UndeclaredExport) && *final(self) == *old(
                self,
            ),
    {
        if !self.declared.contains(export.name.as_str()) {
            return Err(Failure::UndeclaredExport);
        }
        self.named.push(export);
        Ok(())
    }

    /// Exports an object as the default, and each of its properties under
    /// the property's own name. All of these names must have been
    /// declared, or nothing is exported.
    pub fn export_default(&mut self, object: Vec<Export>) -> (r: Result<(), Failure>)
        ensures
            r is Ok <==> old(self).declared().contains(default_name()) && all_declared(
                old(self).declared(),
                names_of(exports_view(object@)),
            ),
            r is Ok ==> final(self).named() == old(self).named() + exports_view(object@),
            r is Ok ==> final(self).default_object() == Some(exports_view(object@)),
            r is Ok ==> final(self).declared() == old(self).declared(),
            r is Err ==> r == Err::<(), Failure>(Failure::UndeclaredExport) && *final(self) == *old(
                self,
            ),
    {
        let ghost names = names_of(exports_view(object@));
        if !self.declared.contains("default") {
            return Err(Failure::UndeclaredExport);
        }
        let mut i: usize = 0;
        while i < object.len()
            invariant
                i <= object.len(),
                *self == *old(self),
                names == names_of(exports_view(object@)),
                forall|k: int| 0 <= k < i ==> self.declared@.contains(#[trigger] names[k]),
            decreases object.len() - i,
        {
            if !self.declared.contains(object[i].name.as_str()) {
                assert(names[i as int] == object@[i as int]@.name);
                return Err(Failure::UndeclaredExport);
            }
            i += 1;
        }
        let mut j: usize = 0;
        while j < object.len()
            invariant
                j <= object.len(),
                self.declared == old(self).declared,
                self.default == old(self).default,
                self.named() == old(self).named() + exports_view(object@).take(j as int),
            decreases object.len() - j,
        {
            let ghost before = self.named();
            self.named.push(object[j].duplicate());
            assert(self.named() =~= before.push(object@[j as int]@));
            j += 1;
        }
        self.default = Some(object);
        Ok(())
    }

    /// The named exports, in their order.
    pub fn entries(&self) -> (r: &Vec<Export>)
        ensures
            exports_view(r@) == self.named(),
    {
        &self.named
    }

    /// The default object's properties, once it is exported.
    pub fn default_entries(&self) -> (r: Option<&Vec<Export>>)
        ensures
            match r {
                Some(object) => self.default_object() == Some(exports_view(object@)),
                None => self.default_object().is_none(),
            },
    {
        self.default.as_ref()
    }
}

} // verus!
