//! The code generated for controls, held as plain values: a module of
//! functions, each with a name, the struct types its pointer parameters point
//! to, and, once defined, a body of instructions.
//!
//! Every function of a module returns nothing, has external linkage and takes
//! one pointer per parameter type.
use vstd::prelude::*;
use crate::control::{ControlField, ControlType};

verus! {

/// A struct type that a generated function's parameter points to.
#[derive(Clone, Copy, Debug, PartialEq, Eq, Structural)]
pub enum StructRef {
    /// The values of a group of controls of one type.
    Group(ControlType),
    /// The state that a control of this type keeps.
    Data(ControlType),
    /// The state that the user interface of a control of this type keeps.
    Ui(ControlType),
    /// The value of one field.
    Field(ControlField),
    /// The struct with no members.
    Empty,
}

/// A value that an instruction reads.
#[derive(Clone, Copy, Debug, PartialEq, Eq, Structural)]
pub enum Value {
    /// The parameter of the function at this position.
    Param(u32),
    /// A value that the function computed earlier, by its number.
    Local(u32),
}

/// The name given to the result of a call.
#[derive(Clone, Copy, Debug, PartialEq, Eq, Structural)]
pub enum CallLabel {
    /// `field.get`
    FieldGet,
    /// `field.set`
    FieldSet,
    /// no name
    Unnamed,
}

impl CallLabel {
    pub open spec fn spec_text(self) -> Seq<char> {
        match self {
            CallLabel::FieldGet => "field.get"@,
            CallLabel::FieldSet => "field.set"@,
            CallLabel::Unnamed => ""@,
        }
    }

    /// The name as it appears in the generated code.
    pub fn text(&self) -> (r: &'static str)
        ensures
            r@ == self.spec_text(),
    {
        match self {
            CallLabel::FieldGet => "field.get",
            CallLabel::FieldSet => "field.set",
            CallLabel::Unnamed => "",
        }
    }
}

/// One instruction of a function body.
#[derive(Debug, PartialEq, Eq)]
pub enum Instr {
    /// Calls the function at index `callee` of the module with `args`.
    Call { callee: usize, args: Vec<Value>, label: CallLabel },
    /// Copies the value that `src` points to into where `dst` points.
    CopyPtr { src: Value, dst: Value },
    /// Returns from the function.
    RetVoid,
}

/// `instr` calls the function at index `callee` with `args`, naming the
/// result by `label`.
pub open spec fn is_call(instr: Instr, callee: int, args: Seq<Value>, label: CallLabel) -> bool {
    instr matches Instr::Call { callee: c, args: a, label: l } && c == callee && a@ == args && l
        == label
}

/// `new` is `old` with one call appended.
pub open spec fn appended_call(
    old: Seq<Instr>,
    new: Seq<Instr>,
    callee: int,
    args: Seq<Value>,
    label: CallLabel,
) -> bool {
    &&& new.len() == old.len() + 1
    &&& new.drop_last() == old
    &&& is_call(new.last(), callee, args, label)
}

/// Appends instructions to a body under construction.
pub struct Builder {
    instrs: Vec<Instr>,
}

impl View for Builder {
    type V = Seq<Instr>;

    closed spec fn view(&self) -> Seq<Instr> {
        self.instrs@
    }
}

impl Builder {
    /// A builder with no instructions yet.
    pub fn new() -> (r: Builder)
        ensures
            r@ == Seq::<Instr>::empty(),
    {
        Builder { instrs: Vec::new() }
    }

    /// Appends a call of the function at index `callee` with `args`.
    pub fn build_call(&mut self, callee: usize, args: Vec<Value>, label: CallLabel)
        ensures
            appended_call(old(self)@, final(self)@, callee as int, args@, label),
    {
        self.instrs.push(Instr::Call { callee, args, label });
        assert(self@.drop_last() =~= old(self)@);
    }

    /// Appends `instrs`, in order.
    pub fn append(&mut self, instrs: Vec<Instr>)
        ensures
            final(self)@ == old(self)@ + instrs@,
    {
        let mut instrs = instrs;
        self.instrs.append(&mut instrs);
    }

    /// Appends a copy from where `src` points to where `dst` points.
    pub fn build_copy_ptr(&mut self, src: Value, dst: Value)
        ensures
            final(self)@ == old(self)@.push(Instr::CopyPtr { src, dst }),
    {
        self.instrs.push(Instr::CopyPtr { src, dst });
    }

    /// Appends a return.
    pub fn build_return(&mut self)
        ensures
            final(self)@ == old(self)@.push(Instr::RetVoid),
    {
        self.instrs.push(Instr::RetVoid);
    }

    /// The instructions built so far.
    pub fn instrs(&self) -> (r: &Vec<Instr>)
        ensures
            r@ == self@,
    {
        &self.instrs
    }

    /// The instructions built, as an owned body.
    pub fn into_instrs(self) -> (r: Vec<Instr>)
        ensures
            r@ == self@,
    {
        self.instrs
    }
}

/// A function of a module, as plain values.
pub struct FuncView {
    pub name: Seq<char>,
    pub params: Seq<StructRef>,
    pub body: Option<Seq<Instr>>,
}

/// No two functions share a name.
pub open spec fn names_distinct(fs: Seq<FuncView>) -> bool {
    forall|i: int, j: int| 0 <= i < fs.len() && 0 <= j < fs.len() && i != j ==> fs[i].name != fs[j].name
}

/// The position of the function called `name`, if there is one.
pub open spec fn find_name(fs: Seq<FuncView>, name: Seq<char>) -> Option<int> {
    if exists|i: int| 0 <= i < fs.len() && fs[i].name == name {
        Some(choose|i: int| 0 <= i < fs.len() && fs[i].name == name)
    } else {
        None
    }
}

/// What looking up `name` and declaring it if it is missing does to a module:
/// the module after, and the position of the function called `name` there.
pub open spec fn get_or_create(fs: Seq<FuncView>, name: Seq<char>, params: Seq<StructRef>) -> (
    Seq<FuncView>,
    int,
) {
    match find_name(fs, name) {
        Some(i) => (fs, i),
        None => (fs.push(FuncView { name, params, body: None }), fs.len() as int),
    }
}

/// In a module whose names are distinct, `find_name` gives the one function
/// with that name.
pub proof fn lemma_find_name(fs: Seq<FuncView>, name: Seq<char>, i: int)
    requires
        names_distinct(fs),
        0 <= i < fs.len(),
        fs[i].name == name,
    ensures
        find_name(fs, name) == Some(i),
{
}

/// Declaring a function that a module already has changes nothing: the second
/// of two lookups of one name finds what the first declared, and leaves the
/// module as the first left it.
pub proof fn lemma_get_or_create_idempotent(
    fs: Seq<FuncView>,
    name: Seq<char>,
    params: Seq<StructRef>,
    params2: Seq<StructRef>,
)
    requires
        names_distinct(fs),
    ensures
        ({
            let (fs1, i1) = get_or_create(fs, name, params);
            let (fs2, i2) = get_or_create(fs1, name, params2);
            names_distinct(fs1) && fs2 == fs1 && i2 == i1 && fs1[i1].name == name
        }),
{
    let (fs1, i1) = get_or_create(fs, name, params);
    if find_name(fs, name) is None {
        assert(fs1[fs.len() as int].name == name);
        lemma_find_name(fs1, name, fs.len() as int);
    } else {
        lemma_find_name(fs1, name, i1);
    }
}

/// A module of generated functions.
pub struct IrModule {
    names: Vec<String>,
    params: Vec<Vec<StructRef>>,
    bodies: Vec<Option<Vec<Instr>>>,
}

/// A body as a sequence of instructions.
pub open spec fn body_view(b: Option<Vec<Instr>>) -> Option<Seq<Instr>> {
    match b {
        Some(v) => Some(v@),
        None => None,
    }
}

/// The functions described by the three columns of a module.
closed spec fn columns_view(
    names: Seq<String>,
    params: Seq<Vec<StructRef>>,
    bodies: Seq<Option<Vec<Instr>>>,
) -> Seq<FuncView> {
    Seq::new(
        names.len(),
        |i: int| FuncView { name: names[i]@, params: params[i]@, body: body_view(bodies[i]) },
    )
}

impl View for IrModule {
    type V = Seq<FuncView>;

    closed spec fn view(&self) -> Seq<FuncView> {
        columns_view(self.names@, self.params@, self.bodies@)
    }
}

impl IrModule {
    /// The three columns of the module have one entry per function.
    pub closed spec fn shape_ok(self) -> bool {
        self.params@.len() == self.names@.len() && self.bodies@.len() == self.names@.len()
    }

    /// The functions of a module have distinct names.
    #[verifier::type_invariant]
    pub open spec fn well_formed(self) -> bool {
        &&& self.shape_ok()
        &&& names_distinct(self@)
    }

    /// A module with no functions.
    pub fn new() -> (r: IrModule)
        ensures
            r@ == Seq::<FuncView>::empty(),
    {
        let r = IrModule { names: Vec::new(), params: Vec::new(), bodies: Vec::new() };
        assert(r@ =~= Seq::<FuncView>::empty());
        r
    }

    /// The number of functions.
    pub fn len(&self) -> (r: usize)
        ensures
            r == self@.len(),
    {
        proof {
            use_type_invariant(self);
        }
        self.names.len()
    }

    /// The name of the function at `index`.
    pub fn name(&self, index: usize) -> (r: &String)
        requires
            index < self@.len(),
        ensures
            r@ == self@[index as int].name,
    {
        proof {
            use_type_invariant(self);
        }
        &self.names[index]
    }

    /// The parameter types of the function at `index`.
    pub fn params(&self, index: usize) -> (r: &Vec<StructRef>)
        requires
            index < self@.len(),
        ensures
            r@ == self@[index as int].params,
    {
        proof {
            use_type_invariant(self);
        }
        &self.params[index]
    }

    /// The body of the function at `index`, if it has been defined.
    pub fn body(&self, index: usize) -> (r: &Option<Vec<Instr>>)
        requires
            index < self@.len(),
        ensures
            body_view(*r) == self@[index as int].body,
    {
        proof {
            use_type_invariant(self);
        }
        &self.bodies[index]
    }

    /// The position of the function called `name`, if there is one.
    pub fn get_function(&self, name: &str) -> (r: Option<usize>)
        ensures
            r matches Some(i) ==> find_name(self@, name@) == Some(i as int),
            r is None ==> find_name(self@, name@) is None,
    {
        proof {
            use_type_invariant(self);
        }
        let key = name.to_owned();
        let n = self.names.len();
        let mut i: usize = 0;
        while i < n
            invariant
                n == self.names@.len(),
                self.shape_ok(),
                names_distinct(self@),
                key@ == name@,
                i <= n,
                forall|j: int| 0 <= j < i ==> self@[j].name != name@,
            decreases n - i,
        {
            if self.names[i] == key {
                proof {
                    lemma_find_name(self@, name@, i as int);
                }
                return Some(i);
            }
            i = i + 1;
        }
        None
    }

    /// The position of the function called `name`, declaring it with
    /// parameter types `params` and no body if the module has none of that
    /// name. A function that is found keeps the parameter types it has.
    pub fn get_or_create_func(&mut self, name: &str, params: Vec<StructRef>) -> (r: usize)
        ensures
            (final(self)@, r as int) == get_or_create(old(self)@, name@, params@),
            r < final(self)@.len(),
            final(self)@[r as int].name == name@,
    {
        proof {
            use_type_invariant(&*self);
        }
        match self.get_function(name) {
            Some(i) => {
                proof {
                    lemma_find_name(self@, name@, i as int);
                }
                i
            },
            None => {
                let ghost old_view = self@;
                let mut taken = IrModule::new();
                std::mem::swap(&mut taken, self);
                let IrModule { names: mut names, params: mut all_params, bodies: mut bodies } = taken;
                let i = names.len();
                names.push(name.to_owned());
                all_params.push(params);
                bodies.push(None);
                assert(columns_view(names@, all_params@, bodies@) =~= old_view.push(
                    FuncView { name: name@, params: params@, body: None },
                ));
                let rebuilt = IrModule { names, params: all_params, bodies };
                assert(rebuilt@ =~= old_view.push(FuncView { name: name@, params: params@, body: None }));
                *self = rebuilt;
                i
            },
        }
    }

    /// Gives the function at `index` the body `body`, in place of any it had.
    pub fn set_body(&mut self, index: usize, body: Vec<Instr>)
        requires
            index < old(self)@.len(),
        ensures
            final(self)@ == old(self)@.update(
                index as int,
                FuncView { body: Some(body@), ..old(self)@[index as int] },
            ),
    {
        proof {
            use_type_invariant(&*self);
        }
        let ghost old_view = self@;
        let mut taken = IrModule::new();
        std::mem::swap(&mut taken, self);
        let IrModule { names, params, bodies: mut bodies } = taken;
        bodies.set(index, Some(body));
        assert(columns_view(names@, params@, bodies@) =~= old_view.update(
            index as int,
            FuncView { body: Some(body@), ..old_view[index as int] },
        ));
        let rebuilt = IrModule { names, params, bodies };
        assert(rebuilt@ =~= old_view.update(
            index as int,
            FuncView { body: Some(body@), ..old_view[index as int] },
        ));
        *self = rebuilt;
    }
}

} // verus!
