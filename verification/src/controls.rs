//! The functions generated for each kind of control: their names and
//! parameter types, their bodies, and the calls into them.
use vstd::prelude::*;
use crate::control::{ControlField, ControlType, FieldKind, LifecycleFunc, TargetProperties};
use crate::ir::{
    appended_call, find_name, get_or_create, lemma_find_name, names_distinct, Builder, CallLabel,
    FuncView, Instr, IrModule, StructRef, Value,
};
use crate::names::{lemma_name_injective, FuncKey};

verus! {

// ---------------------------------------------------------------------------
// Parameter types
// ---------------------------------------------------------------------------
/// The user interface state of a control of type `ct`. Graph, roll and scope
/// controls keep their user interface state in their data, so for them it is
/// the data type.
pub open spec fn spec_ui_type(ct: ControlType) -> StructRef {
    match ct {
        ControlType::Graph => StructRef::Data(ct),
        ControlType::Roll => StructRef::Data(ct),
        ControlType::Scope => StructRef::Data(ct),
        _ => StructRef::Ui(ct),
    }
}

/// The type of the values of a group of controls of type `control_type`.
pub fn get_group_type(control_type: ControlType) -> (r: StructRef)
    ensures
        r == StructRef::Group(control_type),
{
    StructRef::Group(control_type)
}

/// The type of the value of `field`.
pub fn get_field_type(field: ControlField) -> (r: StructRef)
    ensures
        r == StructRef::Field(field),
{
    StructRef::Field(field)
}

/// The type of the state that a control of type `control_type` keeps.
pub fn get_data_type(control_type: ControlType) -> (r: StructRef)
    ensures
        r == StructRef::Data(control_type),
{
    StructRef::Data(control_type)
}

/// The type of the user interface state of a control of type `control_type`.
pub fn get_ui_type(control_type: ControlType) -> (r: StructRef)
    ensures
        r == spec_ui_type(control_type),
{
    match control_type {
        ControlType::Audio => StructRef::Ui(ControlType::Audio),
        ControlType::Midi => StructRef::Ui(ControlType::Midi),
        ControlType::AudioExtract => StructRef::Ui(ControlType::AudioExtract),
        ControlType::MidiExtract => StructRef::Ui(ControlType::MidiExtract),
        ControlType::Graph => StructRef::Data(ControlType::Graph),
        ControlType::Roll => StructRef::Data(ControlType::Roll),
        ControlType::Scope => StructRef::Data(ControlType::Scope),
    }
}

/// The parameter types of a control function: the group's values, the
/// control's data, then the user interface state for a user interface
/// lifecycle function, or the field's value for a getter or setter.
pub open spec fn key_params(k: FuncKey) -> Seq<StructRef> {
    match k {
        FuncKey::Lifecycle(ct, _) => seq![StructRef::Group(ct), StructRef::Data(ct)],
        FuncKey::UiLifecycle(ct, _) => seq![
            StructRef::Group(ct),
            StructRef::Data(ct),
            spec_ui_type(ct),
        ],
        FuncKey::Getter(f) => seq![
            StructRef::Group(f.control_type),
            StructRef::Data(f.control_type),
            StructRef::Field(f),
        ],
        FuncKey::Setter(f) => seq![
            StructRef::Group(f.control_type),
            StructRef::Data(f.control_type),
            StructRef::Field(f),
        ],
    }
}

// ---------------------------------------------------------------------------
// Properties of modules
// ---------------------------------------------------------------------------
/// Every function of the module that bears the name of a control function
/// has that function's parameter types.
pub open spec fn signatures_consistent(fs: Seq<FuncView>) -> bool {
    forall|i: int, k: FuncKey|
        #![trigger fs[i], k.spec_name()]
        0 <= i < fs.len() && fs[i].name == k.spec_name() ==> fs[i].params == key_params(k)
}

/// `new` keeps the functions of `old`, in their places, with their names and
/// parameter types, and may add more after them.
pub open spec fn extends(old: Seq<FuncView>, new: Seq<FuncView>) -> bool {
    &&& old.len() <= new.len()
    &&& forall|i: int|
        #![trigger new[i]]
        0 <= i < old.len() ==> new[i].name == old[i].name && new[i].params == old[i].params
}

/// A body whose last instruction returns.
pub open spec fn ends_in_return(body: Option<Seq<Instr>>) -> bool {
    body matches Some(b) && b.len() > 0 && b.last() == Instr::RetVoid
}

/// The module has a function with `k`'s name, and it has a body that ends by
/// returning.
pub open spec fn defines(fs: Seq<FuncView>, k: FuncKey) -> bool {
    find_name(fs, k.spec_name()) matches Some(i) && ends_in_return(fs[i].body)
}

/// The module has a function with `k`'s name.
pub open spec fn declares(fs: Seq<FuncView>, k: FuncKey) -> bool {
    find_name(fs, k.spec_name()) is Some
}

/// Every function that `new` adds to `old`, or whose body it changes, bears
/// the name of a key that `keys` holds.
pub open spec fn changed_only(
    old: Seq<FuncView>,
    new: Seq<FuncView>,
    keys: spec_fn(FuncKey) -> bool,
) -> bool {
    forall|i: int|
        #![trigger new[i]]
        0 <= i < new.len() && (i >= old.len() || new[i].body != old[i].body) ==> exists|k: FuncKey|
            keys(k) && new[i].name == k.spec_name()
}

/// Whether `new` has a function with `k`'s name exactly when `old` has one.
pub open spec fn same_declared(old: Seq<FuncView>, new: Seq<FuncView>, k: FuncKey) -> bool {
    declares(old, k) <==> declares(new, k)
}

/// Going from `old` to `new` touches only the functions of the keys that
/// `keys` holds: every function of `old` stays, with its name and parameter
/// types; only functions of those keys are added or get new bodies; every
/// other key stays declared or undeclared and stays defined; and consistent
/// signatures stay consistent.
pub open spec fn steps_to(
    old: Seq<FuncView>,
    new: Seq<FuncView>,
    keys: spec_fn(FuncKey) -> bool,
) -> bool {
    &&& extends(old, new)
    &&& changed_only(old, new, keys)
    &&& (signatures_consistent(old) ==> signatures_consistent(new))
    &&& forall|k: FuncKey| #![trigger declares(new, k)] !keys(k) ==> same_declared(old, new, k)
    &&& forall|k: FuncKey| !keys(k) && defines(old, k) ==> #[trigger] defines(new, k)
}

/// The position of `k`'s function after it is looked up and, if missing,
/// declared.
pub open spec fn key_index(fs: Seq<FuncView>, k: FuncKey) -> int {
    get_or_create(fs, k.spec_name(), key_params(k)).1
}

/// The module after `k`'s function is looked up and, if missing, declared.
pub open spec fn with_key(fs: Seq<FuncView>, k: FuncKey) -> Seq<FuncView> {
    get_or_create(fs, k.spec_name(), key_params(k)).0
}

/// What holds after `k`'s function is looked up and, if missing, declared,
/// the module going from `old` to `new`, the function at position `i`.
pub open spec fn declared_post(old: Seq<FuncView>, new: Seq<FuncView>, i: int, k: FuncKey) -> bool {
    &&& new == with_key(old, k)
    &&& i == key_index(old, k)
    &&& 0 <= i < new.len()
    &&& new[i].name == k.spec_name()
    &&& find_name(new, k.spec_name()) == Some(i)
    &&& steps_to(old, new, |x: FuncKey| x == k)
    &&& (signatures_consistent(old) ==> new[i].params == key_params(k))
    &&& forall|k2: FuncKey| defines(old, k2) ==> #[trigger] defines(new, k2)
}

// ---------------------------------------------------------------------------
// Lemmas on modules
// ---------------------------------------------------------------------------
/// Declaring the function of `k` with its own parameter types keeps the
/// module's functions and keeps the module's signatures consistent.
pub proof fn lemma_declare_key(fs: Seq<FuncView>, k: FuncKey)
    requires
        names_distinct(fs),
    ensures
        declared_post(fs, with_key(fs, k), key_index(fs, k), k),
        names_distinct(with_key(fs, k)),
{
    let name = k.spec_name();
    let (fs1, i) = get_or_create(fs, name, key_params(k));
    match find_name(fs, name) {
        Some(j) => {
            lemma_find_name(fs, name, j);
            assert(fs1 == fs);
            if signatures_consistent(fs) {
                assert(fs[j].name == k.spec_name());
            }
            assert forall|a: int|
                #![trigger fs1[a]]
                0 <= a < fs1.len() && (a >= fs.len() || fs1[a].body != fs[a].body) implies exists|
                x: FuncKey,
            | (|x: FuncKey| x == k)(x) && fs1[a].name == x.spec_name() by {}
        },
        None => {
            assert(fs1 == fs.push(FuncView { name, params: key_params(k), body: None }));
            assert(fs1[fs.len() as int].name == name);
            assert(names_distinct(fs1)) by {
                assert forall|a: int, b: int|
                    0 <= a < fs1.len() && 0 <= b < fs1.len() && a != b implies fs1[a].name
                    != fs1[b].name by {
                    if a == fs.len() {
                        assert(fs1[b] == fs[b]);
                    } else if b == fs.len() {
                        assert(fs1[a] == fs[a]);
                    }
                }
            }
            lemma_find_name(fs1, name, i);
            if signatures_consistent(fs) {
                assert forall|a: int, k2: FuncKey|
                    0 <= a < fs1.len() && fs1[a].name == k2.spec_name() implies fs1[a].params
                    == key_params(k2) by {
                    if a == fs.len() {
                        lemma_name_injective(k, k2);
                    } else {
                        assert(fs1[a] == fs[a]);
                    }
                }
            }
            assert forall|k2: FuncKey| defines(fs, k2) implies #[trigger] defines(fs1, k2) by {
                let j = find_name(fs, k2.spec_name())->0;
                assert(fs1[j] == fs[j]);
                lemma_find_name(fs1, k2.spec_name(), j);
            }
            assert forall|k2: FuncKey| k2 != k implies #[trigger] same_declared(fs, fs1, k2) by {
                if declares(fs, k2) {
                    let j = find_name(fs, k2.spec_name())->0;
                    assert(fs1[j] == fs[j]);
                    lemma_find_name(fs1, k2.spec_name(), j);
                }
                if declares(fs1, k2) {
                    let j = find_name(fs1, k2.spec_name())->0;
                    if j == fs.len() {
                        lemma_name_injective(k, k2);
                    } else {
                        assert(fs1[j] == fs[j]);
                    }
                }
            }
            assert forall|a: int|
                #![trigger fs1[a]]
                0 <= a < fs1.len() && (a >= fs.len() || fs1[a].body != fs[a].body) implies exists|
                x: FuncKey,
            | (|x: FuncKey| x == k)(x) && fs1[a].name == x.spec_name() by {
                if a < fs.len() {
                    assert(fs1[a] == fs[a]);
                } else {
                    assert((|x: FuncKey| x == k)(k));
                }
            }
        },
    }
}

/// Giving the function of `k` a body that ends by returning defines `k`,
/// keeps every other definition and declaration, and keeps the module's
/// functions and signatures.
pub proof fn lemma_define_key(fs: Seq<FuncView>, i: int, body: Seq<Instr>, k: FuncKey)
    requires
        names_distinct(fs),
        0 <= i < fs.len(),
        fs[i].name == k.spec_name(),
        body.len() > 0,
        body.last() == Instr::RetVoid,
    ensures
        ({
            let fs1 = fs.update(i, FuncView { body: Some(body), ..fs[i] });
            &&& fs1.len() == fs.len()
            &&& names_distinct(fs1)
            &&& defines(fs1, k)
            &&& steps_to(fs, fs1, |x: FuncKey| x == k)
        }),
{
    let fs1 = fs.update(i, FuncView { body: Some(body), ..fs[i] });
    assert(names_distinct(fs1)) by {
        assert forall|a: int, b: int|
            0 <= a < fs1.len() && 0 <= b < fs1.len() && a != b implies fs1[a].name
            != fs1[b].name by {
            assert(fs1[a].name == fs[a].name);
            assert(fs1[b].name == fs[b].name);
        }
    }
    lemma_find_name(fs1, k.spec_name(), i);
    if signatures_consistent(fs) {
        assert forall|a: int, k2: FuncKey|
            0 <= a < fs1.len() && fs1[a].name == k2.spec_name() implies fs1[a].params == key_params(
            k2,
        ) by {
            assert(fs1[a].params == fs[a].params);
            assert(fs1[a].name == fs[a].name);
        }
    }
    assert forall|k2: FuncKey| !(|x: FuncKey| x == k)(k2) && defines(fs, k2) implies #[trigger] defines(
        fs1,
        k2,
    ) by {
        let j = find_name(fs, k2.spec_name())->0;
        lemma_find_name(fs, k2.spec_name(), j);
        if j == i {
            lemma_name_injective(k, k2);
        }
        lemma_find_name(fs1, k2.spec_name(), j);
    }
    assert forall|k2: FuncKey| #[trigger] same_declared(fs, fs1, k2) by {
        if declares(fs, k2) {
            let j = find_name(fs, k2.spec_name())->0;
            lemma_find_name(fs1, k2.spec_name(), j);
        }
        if declares(fs1, k2) {
            let j = find_name(fs1, k2.spec_name())->0;
            assert(fs1[j].name == fs[j].name);
            lemma_find_name(fs, k2.spec_name(), j);
        }
    }
    assert forall|a: int|
        #![trigger fs1[a]]
        0 <= a < fs1.len() && (a >= fs.len() || fs1[a].body != fs[a].body) implies exists|
        x: FuncKey,
    | (|x: FuncKey| x == k)(x) && fs1[a].name == x.spec_name() by {
        assert(a == i);
        assert((|x: FuncKey| x == k)(k));
    }
}

/// Two steps, the first touching the keys of `p` and the second those of
/// `q`, together touch the keys of either.
pub proof fn lemma_steps_compose(
    a: Seq<FuncView>,
    b: Seq<FuncView>,
    c: Seq<FuncView>,
    p: spec_fn(FuncKey) -> bool,
    q: spec_fn(FuncKey) -> bool,
    r: spec_fn(FuncKey) -> bool,
)
    requires
        steps_to(a, b, p),
        steps_to(b, c, q),
        forall|k: FuncKey| #[trigger] r(k) <==> (p(k) || q(k)),
    ensures
        steps_to(a, c, r),
{
    assert forall|i: int|
        #![trigger c[i]]
        0 <= i < c.len() && (i >= a.len() || c[i].body != a[i].body) implies exists|k: FuncKey|
        r(k) && c[i].name == k.spec_name() by {
        if i < b.len() && c[i].body == b[i].body {
            assert(c[i].name == b[i].name);
            let k = choose|k: FuncKey| p(k) && b[i].name == k.spec_name();
            assert(r(k));
        } else {
            let k = choose|k: FuncKey| q(k) && c[i].name == k.spec_name();
            assert(r(k));
        }
    }
    assert forall|k: FuncKey| !r(k) implies #[trigger] same_declared(a, c, k) by {
        assert(same_declared(a, b, k));
        assert(same_declared(b, c, k));
    }
    assert forall|k: FuncKey| !r(k) && defines(a, k) implies #[trigger] defines(c, k) by {
        assert(defines(b, k));
    }
    assert forall|i: int|
        #![trigger c[i]]
        0 <= i < a.len() implies c[i].name == a[i].name && c[i].params == a[i].params by {
        assert(b[i].name == a[i].name);
    }
}

/// A step that touches the keys of `p` touches the keys of any `q` that
/// holds every key of `p`.
pub proof fn lemma_steps_widen(
    a: Seq<FuncView>,
    b: Seq<FuncView>,
    p: spec_fn(FuncKey) -> bool,
    q: spec_fn(FuncKey) -> bool,
)
    requires
        steps_to(a, b, p),
        forall|k: FuncKey| #[trigger] p(k) ==> q(k),
    ensures
        steps_to(a, b, q),
{
    assert forall|i: int|
        #![trigger b[i]]
        0 <= i < b.len() && (i >= a.len() || b[i].body != a[i].body) implies exists|k: FuncKey|
        q(k) && b[i].name == k.spec_name() by {
        let k = choose|k: FuncKey| p(k) && b[i].name == k.spec_name();
        assert(q(k));
    }
}

/// The module after `k`'s function is looked up, declared if missing, and
/// given the body `body`.
pub open spec fn define_key(fs: Seq<FuncView>, k: FuncKey, body: Seq<Instr>) -> Seq<FuncView> {
    let fs1 = with_key(fs, k);
    let i = key_index(fs, k);
    fs1.update(i, FuncView { body: Some(body), ..fs1[i] })
}

/// If the module has a function with `k`'s name, that function has at least
/// as many parameters as `k`'s function takes, so a body that reads them
/// finds them.
pub open spec fn params_ok(fs: Seq<FuncView>, k: FuncKey) -> bool {
    find_name(fs, k.spec_name()) matches Some(i) ==> fs[i].params.len() >= key_params(k).len()
}

/// Looking up or declaring `k` gives a function with enough parameters for
/// `k` when the module had enough, and keeps every key's parameters
/// sufficient.
pub proof fn lemma_declare_params(fs: Seq<FuncView>, k: FuncKey)
    requires
        names_distinct(fs),
        params_ok(fs, k),
    ensures
        with_key(fs, k)[key_index(fs, k)].params.len() >= key_params(k).len(),
        forall|k2: FuncKey| params_ok(fs, k2) ==> #[trigger] params_ok(with_key(fs, k), k2),
{
    lemma_declare_key(fs, k);
    let fs1 = with_key(fs, k);
    let i = key_index(fs, k);
    if find_name(fs, k.spec_name()) is Some {
        let j = find_name(fs, k.spec_name())->0;
        lemma_find_name(fs, k.spec_name(), j);
    }
    assert forall|k2: FuncKey| params_ok(fs, k2) implies #[trigger] params_ok(fs1, k2) by {
        if find_name(fs1, k2.spec_name()) is Some {
            let j = find_name(fs1, k2.spec_name())->0;
            lemma_find_name(fs1, k2.spec_name(), j);
            if j >= fs.len() {
                lemma_name_injective(k, k2);
            } else {
                assert(fs1[j] == fs[j]);
                lemma_find_name(fs, k2.spec_name(), j);
            }
        }
    }
}

/// Defining `k` keeps names distinct, defines `k` at the position where it
/// is found, touches only `k`, and keeps every key's parameters sufficient.
pub proof fn lemma_define_full(fs: Seq<FuncView>, k: FuncKey, body: Seq<Instr>)
    requires
        names_distinct(fs),
        body.len() > 0,
        body.last() == Instr::RetVoid,
    ensures
        names_distinct(define_key(fs, k, body)),
        define_key(fs, k, body).len() == with_key(fs, k).len(),
        find_name(define_key(fs, k, body), k.spec_name()) == Some(key_index(fs, k)),
        defines(define_key(fs, k, body), k),
        steps_to(fs, define_key(fs, k, body), |x: FuncKey| x == k),
        forall|k2: FuncKey| params_ok(fs, k2) ==> #[trigger] params_ok(define_key(fs, k, body), k2),
{
    lemma_declare_key(fs, k);
    let fs1 = with_key(fs, k);
    let i = key_index(fs, k);
    lemma_define_key(fs1, i, body, k);
    let fs2 = define_key(fs, k, body);
    lemma_steps_compose(fs, fs1, fs2, |x: FuncKey| x == k, |x: FuncKey| x == k, |x: FuncKey| x == k);
    lemma_find_name(fs2, k.spec_name(), i);
    assert forall|k2: FuncKey| params_ok(fs, k2) implies #[trigger] params_ok(fs2, k2) by {
        if find_name(fs2, k2.spec_name()) is Some {
            let j = find_name(fs2, k2.spec_name())->0;
            lemma_find_name(fs2, k2.spec_name(), j);
            if j == i {
                lemma_name_injective(k, k2);
                if find_name(fs, k.spec_name()) is Some {
                    let j0 = find_name(fs, k.spec_name())->0;
                    lemma_find_name(fs, k.spec_name(), j0);
                }
            } else {
                assert(fs2[j] == fs1[j]);
                if j < fs.len() {
                    assert(fs1[j] == fs[j]);
                    lemma_find_name(fs, k2.spec_name(), j);
                }
            }
        }
    }
}

// ---------------------------------------------------------------------------
// Declaring control functions
// ---------------------------------------------------------------------------
/// Looks up the function of `key` by its name, declaring it with `params`
/// if the module has none of that name.
fn get_or_create_key_func(module: &mut IrModule, key: FuncKey, params: Vec<StructRef>) -> (r: usize)
    requires
        params@ == key_params(key),
    ensures
        declared_post(old(module)@, final(module)@, r as int, key),
{
    proof {
        use_type_invariant(&*module);
        lemma_declare_key(module@, key);
    }
    let name = key.name();
    module.get_or_create_func(name.as_str(), params)
}

/// The function run at stage `lifecycle` of a control of type
/// `control_type`, declared if the module lacks it, taking the group's values
/// and the control's data.
fn get_lifecycle_func(
    module: &mut IrModule,
    control_type: ControlType,
    lifecycle: LifecycleFunc,
) -> (r: usize)
    ensures
        declared_post(
            old(module)@,
            final(module)@,
            r as int,
            FuncKey::Lifecycle(control_type, lifecycle),
        ),
{
    let params = vec![get_group_type(control_type), get_data_type(control_type)];
    assert(params@ =~= key_params(FuncKey::Lifecycle(control_type, lifecycle)));
    get_or_create_key_func(module, FuncKey::Lifecycle(control_type, lifecycle), params)
}

/// The function run at stage `lifecycle` of the user interface of a control
/// of type `control_type`, declared if the module lacks it, taking the
/// group's values, the control's data and its user interface state.
fn get_ui_lifecycle_func(
    module: &mut IrModule,
    control_type: ControlType,
    lifecycle: LifecycleFunc,
) -> (r: usize)
    ensures
        declared_post(
            old(module)@,
            final(module)@,
            r as int,
            FuncKey::UiLifecycle(control_type, lifecycle),
        ),
{
    let params = vec![
        get_group_type(control_type),
        get_data_type(control_type),
        get_ui_type(control_type),
    ];
    assert(params@ =~= key_params(FuncKey::UiLifecycle(control_type, lifecycle)));
    get_or_create_key_func(module, FuncKey::UiLifecycle(control_type, lifecycle), params)
}

/// The function called `func_name` that takes the group's values, the
/// control's data and the value of `field`, declared if the module lacks it.
fn get_field_getter_setter_func(module: &mut IrModule, field: ControlField, func_name: &str) -> (r:
    usize)
    ensures
        (final(module)@, r as int) == get_or_create(
            old(module)@,
            func_name@,
            key_params(FuncKey::Getter(field)),
        ),
{
    let control_type = field.control_type;
    let params = vec![
        get_group_type(control_type),
        get_data_type(control_type),
        get_field_type(field),
    ];
    assert(params@ =~= key_params(FuncKey::Getter(field)));
    module.get_or_create_func(func_name, params)
}

/// The function that reads `field`, `maxim.control.<field>.getter`, declared
/// if the module lacks it, taking the group's values, the control's data and
/// where to put the field's value.
pub fn get_field_getter_func(module: &mut IrModule, field: ControlField) -> (r: usize)
    ensures
        declared_post(old(module)@, final(module)@, r as int, FuncKey::Getter(field)),
        signatures_consistent(old(module)@) ==> params_of(final(module)@, FuncKey::Getter(field)) == Some(
            seq![StructRef::Group(field.control_type), StructRef::Data(field.control_type), StructRef::Field(field)],
        ),
{
    proof {
        use_type_invariant(&*module);
        if signatures_consistent(module@) {
            law_control_function_params(module@, field.control_type, LifecycleFunc::Construct, field);
        }
    }
    proof {
        use_type_invariant(&*module);
        lemma_declare_key(module@, FuncKey::Getter(field));
    }
    let name = FuncKey::Getter(field).name();
    get_field_getter_setter_func(module, field, name.as_str())
}

/// The function that writes `field`, `maxim.control.<field>.setter`,
/// declared if the module lacks it, taking the group's values, the control's
/// data and where to take the field's new value from.
pub fn get_field_setter_func(module: &mut IrModule, field: ControlField) -> (r: usize)
    ensures
        declared_post(old(module)@, final(module)@, r as int, FuncKey::Setter(field)),
        signatures_consistent(old(module)@) ==> params_of(final(module)@, FuncKey::Setter(field)) == Some(
            seq![StructRef::Group(field.control_type), StructRef::Data(field.control_type), StructRef::Field(field)],
        ),
{
    proof {
        use_type_invariant(&*module);
        if signatures_consistent(module@) {
            law_control_function_params(module@, field.control_type, LifecycleFunc::Construct, field);
        }
    }
    proof {
        use_type_invariant(&*module);
        lemma_declare_key(module@, FuncKey::Setter(field));
    }
    let name = FuncKey::Setter(field).name();
    get_field_getter_setter_func(module, field, name.as_str())
}

// ---------------------------------------------------------------------------
// Calls into control functions
// ---------------------------------------------------------------------------
/// Appends to `builder` a call of the getter of `field` with the group's
/// values, the control's data and where to put the value, declaring the
/// getter if the module lacks it.
pub fn build_field_get(
    module: &mut IrModule,
    builder: &mut Builder,
    field: ControlField,
    group_ptr: Value,
    data_ptr: Value,
    out_val: Value,
)
    ensures
        declared_post(
            old(module)@,
            final(module)@,
            key_index(old(module)@, FuncKey::Getter(field)),
            FuncKey::Getter(field),
        ),
        appended_call(
            old(builder)@,
            final(builder)@,
            key_index(old(module)@, FuncKey::Getter(field)),
            seq![group_ptr, data_ptr, out_val],
            CallLabel::FieldGet,
        ),
        signatures_consistent(old(module)@) ==> params_of(final(module)@, FuncKey::Getter(field)) == Some(
            seq![StructRef::Group(field.control_type), StructRef::Data(field.control_type), StructRef::Field(field)],
        ),
{
    proof {
        use_type_invariant(&*module);
        if signatures_consistent(module@) {
            law_control_function_params(module@, field.control_type, LifecycleFunc::Construct, field);
        }
    }
    let func = get_field_getter_func(module, field);
    let args = vec![group_ptr, data_ptr, out_val];
    assert(args@ =~= seq![group_ptr, data_ptr, out_val]);
    builder.build_call(func, args, CallLabel::FieldGet);
}

/// Appends to `builder` a call of the setter of `field` with the group's
/// values, the control's data and where to take the new value from,
/// declaring the setter if the module lacks it.
pub fn build_field_set(
    module: &mut IrModule,
    builder: &mut Builder,
    field: ControlField,
    group_ptr: Value,
    data_ptr: Value,
    in_val: Value,
)
    ensures
        declared_post(
            old(module)@,
            final(module)@,
            key_index(old(module)@, FuncKey::Setter(field)),
            FuncKey::Setter(field),
        ),
        appended_call(
            old(builder)@,
            final(builder)@,
            key_index(old(module)@, FuncKey::Setter(field)),
            seq![group_ptr, data_ptr, in_val],
            CallLabel::FieldSet,
        ),
        signatures_consistent(old(module)@) ==> params_of(final(module)@, FuncKey::Setter(field)) == Some(
            seq![StructRef::Group(field.control_type), StructRef::Data(field.control_type), StructRef::Field(field)],
        ),
{
    proof {
        use_type_invariant(&*module);
        if signatures_consistent(module@) {
            law_control_function_params(module@, field.control_type, LifecycleFunc::Construct, field);
        }
    }
    let func = get_field_setter_func(module, field);
    let args = vec![group_ptr, data_ptr, in_val];
    assert(args@ =~= seq![group_ptr, data_ptr, in_val]);
    builder.build_call(func, args, CallLabel::FieldSet);
}

/// Appends to `builder` a call of the function run at stage `lifecycle` of a
/// control of type `control_type`, with the group's values and the control's
/// data, declaring the function if the module lacks it.
pub fn build_lifecycle_call(
    module: &mut IrModule,
    builder: &mut Builder,
    control_type: ControlType,
    lifecycle: LifecycleFunc,
    group_ptr: Value,
    data_ptr: Value,
)
    ensures
        declared_post(
            old(module)@,
            final(module)@,
            key_index(old(module)@, FuncKey::Lifecycle(control_type, lifecycle)),
            FuncKey::Lifecycle(control_type, lifecycle),
        ),
        appended_call(
            old(builder)@,
            final(builder)@,
            key_index(old(module)@, FuncKey::Lifecycle(control_type, lifecycle)),
            seq![group_ptr, data_ptr],
            CallLabel::Unnamed,
        ),
        signatures_consistent(old(module)@) ==> params_of(final(module)@, FuncKey::Lifecycle(control_type, lifecycle)) == Some(
            seq![StructRef::Group(control_type), StructRef::Data(control_type)],
        ),
{
    proof {
        use_type_invariant(&*module);
        if signatures_consistent(module@) {
            law_control_function_params(module@, control_type, lifecycle, ControlField { control_type, field: FieldKind::Value });
        }
    }
    let func = get_lifecycle_func(module, control_type, lifecycle);
    let args = vec![group_ptr, data_ptr];
    assert(args@ =~= seq![group_ptr, data_ptr]);
    builder.build_call(func, args, CallLabel::Unnamed);
}

/// Appends to `builder` a call of the function run at stage `lifecycle` of
/// the user interface of a control of type `control_type`, with the group's
/// values, the control's data and its user interface state, declaring the
/// function if the module lacks it.
pub fn build_ui_lifecycle_call(
    module: &mut IrModule,
    builder: &mut Builder,
    control_type: ControlType,
    lifecycle: LifecycleFunc,
    group_ptr: Value,
    data_ptr: Value,
    ui_ptr: Value,
)
    ensures
        declared_post(
            old(module)@,
            final(module)@,
            key_index(old(module)@, FuncKey::UiLifecycle(control_type, lifecycle)),
            FuncKey::UiLifecycle(control_type, lifecycle),
        ),
        appended_call(
            old(builder)@,
            final(builder)@,
            key_index(old(module)@, FuncKey::UiLifecycle(control_type, lifecycle)),
            seq![group_ptr, data_ptr, ui_ptr],
            CallLabel::Unnamed,
        ),
        signatures_consistent(old(module)@) ==> params_of(final(module)@, FuncKey::UiLifecycle(control_type, lifecycle)) == Some(
            seq![StructRef::Group(control_type), StructRef::Data(control_type), spec_ui_type(control_type)],
        ),
{
    proof {
        use_type_invariant(&*module);
        if signatures_consistent(module@) {
            law_control_function_params(module@, control_type, lifecycle, ControlField { control_type, field: FieldKind::Value });
        }
    }
    let func = get_ui_lifecycle_func(module, control_type, lifecycle);
    let args = vec![group_ptr, data_ptr, ui_ptr];
    assert(args@ =~= seq![group_ptr, data_ptr, ui_ptr]);
    builder.build_call(func, args, CallLabel::Unnamed);
}

// ---------------------------------------------------------------------------
// Bodies of control functions
// ---------------------------------------------------------------------------
/// Where the code of a control function's body is being written, and the
/// pointers it works on.
pub struct ControlContext {
    pub b: Builder,
    /// The group's values.
    pub val_ptr: Value,
    /// The control's data.
    pub data_ptr: Value,
}

/// Where the code of a user interface function's body is being written, and
/// the pointers it works on.
pub struct ControlUiContext {
    pub b: Builder,
    /// The group's values.
    pub val_ptr: Value,
    /// The control's data.
    pub data_ptr: Value,
    /// The control's user interface state.
    pub ui_ptr: Value,
}

/// A control context as plain values: the body written so far and the
/// pointers it works on.
pub struct ContextView {
    pub body: Seq<Instr>,
    pub val_ptr: Value,
    pub data_ptr: Value,
}

/// A user interface context as plain values.
pub struct UiContextView {
    pub body: Seq<Instr>,
    pub val_ptr: Value,
    pub data_ptr: Value,
    pub ui_ptr: Value,
}

impl View for ControlContext {
    type V = ContextView;

    open spec fn view(&self) -> ContextView {
        ContextView { body: self.b@, val_ptr: self.val_ptr, data_ptr: self.data_ptr }
    }
}

impl View for ControlUiContext {
    type V = UiContextView;

    open spec fn view(&self) -> UiContextView {
        UiContextView {
            body: self.b@,
            val_ptr: self.val_ptr,
            data_ptr: self.data_ptr,
            ui_ptr: self.ui_ptr,
        }
    }
}

/// The context at the start of a control function's body.
pub open spec fn entry_view() -> ContextView {
    ContextView { body: Seq::empty(), val_ptr: Value::Param(0), data_ptr: Value::Param(1) }
}

/// The context at the start of a user interface function's body.
pub open spec fn ui_entry_view() -> UiContextView {
    UiContextView {
        body: Seq::empty(),
        val_ptr: Value::Param(0),
        data_ptr: Value::Param(1),
        ui_ptr: Value::Param(2),
    }
}

impl ControlContext {
    /// The context at the start of a control function's body: nothing
    /// written yet, the group's values in parameter 0 and the control's data
    /// in parameter 1.
    pub fn entry() -> (r: ControlContext)
        ensures
            r.b@ == Seq::<Instr>::empty(),
            r.val_ptr == Value::Param(0),
            r.data_ptr == Value::Param(1),
            r@ == entry_view(),
    {
        ControlContext { b: Builder::new(), val_ptr: Value::Param(0), data_ptr: Value::Param(1) }
    }
}

impl ControlUiContext {
    /// The context at the start of a user interface function's body: nothing
    /// written yet, the group's values in parameter 0, the control's data in
    /// parameter 1 and its user interface state in parameter 2.
    pub fn entry() -> (r: ControlUiContext)
        ensures
            r.b@ == Seq::<Instr>::empty(),
            r.val_ptr == Value::Param(0),
            r.data_ptr == Value::Param(1),
            r.ui_ptr == Value::Param(2),
            r@ == ui_entry_view(),
    {
        ControlUiContext {
            b: Builder::new(),
            val_ptr: Value::Param(0),
            data_ptr: Value::Param(1),
            ui_ptr: Value::Param(2),
        }
    }
}

/// Writes into `control` the copy of the group's values to where `out_val`
/// points.
pub fn default_copy_getter(control: &mut ControlContext, out_val: Value)
    ensures
        final(control).b@ == old(control).b@.push(
            Instr::CopyPtr { src: old(control).val_ptr, dst: out_val },
        ),
        final(control).val_ptr == old(control).val_ptr,
        final(control).data_ptr == old(control).data_ptr,
{
    let src = control.val_ptr;
    control.b.build_copy_ptr(src, out_val);
}

/// Writes into `control` the copy from where `in_val` points to the group's
/// values.
pub fn default_copy_setter(control: &mut ControlContext, in_val: Value)
    ensures
        final(control).b@ == old(control).b@.push(
            Instr::CopyPtr { src: in_val, dst: old(control).val_ptr },
        ),
        final(control).val_ptr == old(control).val_ptr,
        final(control).data_ptr == old(control).data_ptr,
{
    let dst = control.val_ptr;
    control.b.build_copy_ptr(in_val, dst);
}

/// The code that a field's getter or setter runs, given the pointer to the
/// field's value.
#[derive(Debug, PartialEq, Eq)]
pub enum ControlFieldGeneratorCb {
    /// `default_copy_getter`
    DefaultCopyGetter,
    /// `default_copy_setter`
    DefaultCopySetter,
    /// These instructions, which read the group's values from parameter 0,
    /// the control's data from parameter 1 and the field's pointer from
    /// parameter 2.
    Code(Vec<Instr>),
}

/// The body of a getter or setter whose code is `cb`: its instructions,
/// then the return.
pub open spec fn field_body(cb: ControlFieldGeneratorCb) -> Seq<Instr> {
    match cb {
        ControlFieldGeneratorCb::Code(v) => v@.push(Instr::RetVoid),
        ControlFieldGeneratorCb::DefaultCopyGetter => seq![
            Instr::CopyPtr { src: Value::Param(0), dst: Value::Param(2) },
            Instr::RetVoid,
        ],
        ControlFieldGeneratorCb::DefaultCopySetter => seq![
            Instr::CopyPtr { src: Value::Param(2), dst: Value::Param(0) },
            Instr::RetVoid,
        ],
    }
}

/// Runs the code `cb` in `control` on the field pointer `field_ptr`.
fn run_field_callback(cb: ControlFieldGeneratorCb, control: &mut ControlContext, field_ptr: Value)
    ensures
        final(control).val_ptr == old(control).val_ptr,
        final(control).data_ptr == old(control).data_ptr,
        cb == ControlFieldGeneratorCb::DefaultCopyGetter ==> final(control).b@ == old(
            control,
        ).b@.push(Instr::CopyPtr { src: old(control).val_ptr, dst: field_ptr }),
        cb == ControlFieldGeneratorCb::DefaultCopySetter ==> final(control).b@ == old(
            control,
        ).b@.push(Instr::CopyPtr { src: field_ptr, dst: old(control).val_ptr }),
        cb matches ControlFieldGeneratorCb::Code(v) ==> final(control).b@ == old(control).b@ + v@,
{
    match cb {
        ControlFieldGeneratorCb::DefaultCopyGetter => default_copy_getter(control, field_ptr),
        ControlFieldGeneratorCb::DefaultCopySetter => default_copy_setter(control, field_ptr),
        ControlFieldGeneratorCb::Code(instrs) => control.b.append(instrs),
    }
}

/// Every function that `new` adds to `old`, or whose body it changes, has
/// the body of a getter or a setter: its code, then the return.
pub open spec fn field_bodies_only(old: Seq<FuncView>, new: Seq<FuncView>) -> bool {
    forall|i: int|
        #![trigger new[i]]
        0 <= i < new.len() && (i >= old.len() || new[i].body != old[i].body) ==> exists|
            cb: ControlFieldGeneratorCb,
        | new[i].body == Some(field_body(cb))
}

/// Declaring the function of `k` and giving it the body of `cb` changes no
/// other body and adds no other function.
pub proof fn lemma_field_define(fs: Seq<FuncView>, k: FuncKey, cb: ControlFieldGeneratorCb)
    requires
        names_distinct(fs),
    ensures
        ({
            let fs1 = with_key(fs, k);
            let i = key_index(fs, k);
            field_bodies_only(
                fs,
                fs1.update(i, FuncView { body: Some(field_body(cb)), ..fs1[i] }),
            )
        }),
{
    let fs1 = with_key(fs, k);
    let i = key_index(fs, k);
    let fs2 = fs1.update(i, FuncView { body: Some(field_body(cb)), ..fs1[i] });
    lemma_declare_key(fs, k);
    assert forall|a: int|
        #![trigger fs2[a]]
        0 <= a < fs2.len() && (a >= fs.len() || fs2[a].body != fs[a].body) implies exists|
        c: ControlFieldGeneratorCb,
    | fs2[a].body == Some(field_body(c)) by {
        if a != i {
            if a < fs.len() {
                assert(fs1[a] == fs[a]);
            } else {
                assert(fs1.len() <= fs.len() + 1);
            }
        }
        assert(fs2[i].body == Some(field_body(cb)));
    }
}

/// Two steps that each give only getter and setter bodies together give
/// only getter and setter bodies.
pub proof fn lemma_field_bodies_compose(a: Seq<FuncView>, b: Seq<FuncView>, c: Seq<FuncView>)
    requires
        extends(a, b),
        extends(b, c),
        field_bodies_only(a, b),
        field_bodies_only(b, c),
    ensures
        field_bodies_only(a, c),
{
    assert forall|i: int|
        #![trigger c[i]]
        0 <= i < c.len() && (i >= a.len() || c[i].body != a[i].body) implies exists|
        cb: ControlFieldGeneratorCb,
    | c[i].body == Some(field_body(cb)) by {
        if i < b.len() && c[i].body == b[i].body {
            assert(i >= a.len() || b[i].body != a[i].body);
        }
    }
}

/// Every getter or setter that `new` adds to `old`, or whose body it
/// changes, has the body of a getter or a setter.
pub open spec fn field_funcs_copy(old: Seq<FuncView>, new: Seq<FuncView>) -> bool {
    forall|i: int, k: FuncKey|
        #![trigger new[i], k.spec_name()]
        0 <= i < new.len() && (k is Getter || k is Setter) && new[i].name == k.spec_name() && (i
            >= old.len() || new[i].body != old[i].body) ==> exists|cb: ControlFieldGeneratorCb|
            new[i].body == Some(field_body(cb))
}

/// A step that touches no getter or setter gives no getter or setter a
/// body.
pub proof fn lemma_no_field_step(a: Seq<FuncView>, b: Seq<FuncView>, p: spec_fn(FuncKey) -> bool)
    requires
        steps_to(a, b, p),
        forall|k: FuncKey| #[trigger] p(k) ==> !(k is Getter || k is Setter),
    ensures
        field_funcs_copy(a, b),
{
    assert forall|i: int, k: FuncKey|
        #![trigger b[i], k.spec_name()]
        0 <= i < b.len() && (k is Getter || k is Setter) && b[i].name == k.spec_name() && (i
            >= a.len() || b[i].body != a[i].body) implies exists|cb: ControlFieldGeneratorCb|
        b[i].body == Some(field_body(cb)) by {
        let k2 = choose|k2: FuncKey| p(k2) && b[i].name == k2.spec_name();
        lemma_name_injective(k, k2);
    }
}

/// Two steps that each give getters and setters only their bodies together
/// give them only their bodies.
pub proof fn lemma_field_funcs_compose(a: Seq<FuncView>, b: Seq<FuncView>, c: Seq<FuncView>)
    requires
        extends(a, b),
        extends(b, c),
        field_funcs_copy(a, b),
        field_funcs_copy(b, c),
    ensures
        field_funcs_copy(a, c),
{
    assert forall|i: int, k: FuncKey|
        #![trigger c[i], k.spec_name()]
        0 <= i < c.len() && (k is Getter || k is Setter) && c[i].name == k.spec_name() && (i
            >= a.len() || c[i].body != a[i].body) implies exists|cb: ControlFieldGeneratorCb|
        c[i].body == Some(field_body(cb)) by {
        if i < b.len() && c[i].body == b[i].body {
            assert(b[i].name == c[i].name);
            assert(b[i].name == k.spec_name());
        }
    }
}

/// Gives the function at position `func` the body of a getter or setter
/// whose code is `builder`: the group's values from parameter 0, the
/// control's data from parameter 1, the field's pointer from parameter 2,
/// the code, then the return.
fn build_field_func(module: &mut IrModule, func: usize, builder: ControlFieldGeneratorCb)
    requires
        func < old(module)@.len(),
        old(module)@[func as int].params.len() >= 3,
    ensures
        final(module)@ == old(module)@.update(
            func as int,
            FuncView { body: Some(field_body(builder)), ..old(module)@[func as int] },
        ),
{
    let mut control_context = ControlContext::entry();
    let field_ptr = Value::Param(2);
    run_field_callback(builder, &mut control_context, field_ptr);
    control_context.b.build_return();
    let body = control_context.b.into_instrs();
    assert(body@ =~= field_body(builder));
    module.set_body(func, body);
}

/// Gives the function run at stage `lifecycle` of a control of type
/// `control` the body written into `control_context`, which started from
/// `ControlContext::entry()`, followed by a return.
fn build_lifecycle_func(
    module: &mut IrModule,
    control: ControlType,
    lifecycle: LifecycleFunc,
    control_context: ControlContext,
)
    requires
        params_ok(old(module)@, FuncKey::Lifecycle(control, lifecycle)),
    ensures
        final(module)@ == define_key(
            old(module)@,
            FuncKey::Lifecycle(control, lifecycle),
            control_context@.body.push(Instr::RetVoid),
        ),
        final(module)@[key_index(old(module)@, FuncKey::Lifecycle(control, lifecycle))].params.len()
            >= key_params(FuncKey::Lifecycle(control, lifecycle)).len(),
        ({
            let k = FuncKey::Lifecycle(control, lifecycle);
            let fs1 = with_key(old(module)@, k);
            let i = key_index(old(module)@, k);
            &&& final(module)@ == fs1.update(
                i,
                FuncView { body: Some(control_context.b@.push(Instr::RetVoid)), ..fs1[i] },
            )
            &&& defines(final(module)@, k)
            &&& steps_to(old(module)@, final(module)@, |x: FuncKey| x == k)
            &&& (signatures_consistent(old(module)@) ==> final(module)@[i].params == key_params(k))
        }),
{
    let ghost k = FuncKey::Lifecycle(control, lifecycle);
    proof {
        use_type_invariant(&*module);
    }
    let ghost fs0 = module@;
    let func = get_lifecycle_func(module, control, lifecycle);
    let ghost fs1 = module@;
    proof {
        use_type_invariant(&*module);
    }
    let mut control_context = control_context;
    control_context.b.build_return();
    let body = control_context.b.into_instrs();
    module.set_body(func, body);
    proof {
        lemma_define_key(fs1, func as int, body@, k);
        lemma_steps_compose(fs0, fs1, module@, |x: FuncKey| x == k, |x: FuncKey| x == k, |x: FuncKey| x == k);
        lemma_define_full(fs0, k, body@);
        assert(params_ok(module@, k));
    }
}

/// Gives the function run at stage `lifecycle` of the user interface of a
/// control of type `control` the body written into `control_context`, which
/// started from `ControlUiContext::entry()`, followed by a return.
fn build_ui_lifecycle_func(
    module: &mut IrModule,
    control: ControlType,
    lifecycle: LifecycleFunc,
    control_context: ControlUiContext,
)
    requires
        params_ok(old(module)@, FuncKey::UiLifecycle(control, lifecycle)),
    ensures
        final(module)@ == define_key(
            old(module)@,
            FuncKey::UiLifecycle(control, lifecycle),
            control_context@.body.push(Instr::RetVoid),
        ),
        final(module)@[key_index(old(module)@, FuncKey::UiLifecycle(control, lifecycle))].params.len()
            >= key_params(FuncKey::UiLifecycle(control, lifecycle)).len(),
        ({
            let k = FuncKey::UiLifecycle(control, lifecycle);
            let fs1 = with_key(old(module)@, k);
            let i = key_index(old(module)@, k);
            &&& final(module)@ == fs1.update(
                i,
                FuncView { body: Some(control_context.b@.push(Instr::RetVoid)), ..fs1[i] },
            )
            &&& defines(final(module)@, k)
            &&& steps_to(old(module)@, final(module)@, |x: FuncKey| x == k)
            &&& (signatures_consistent(old(module)@) ==> final(module)@[i].params == key_params(k))
        }),
{
    let ghost k = FuncKey::UiLifecycle(control, lifecycle);
    proof {
        use_type_invariant(&*module);
    }
    let ghost fs0 = module@;
    let func = get_ui_lifecycle_func(module, control, lifecycle);
    let ghost fs1 = module@;
    proof {
        use_type_invariant(&*module);
    }
    let mut control_context = control_context;
    control_context.b.build_return();
    let body = control_context.b.into_instrs();
    module.set_body(func, body);
    proof {
        lemma_define_key(fs1, func as int, body@, k);
        lemma_steps_compose(fs0, fs1, module@, |x: FuncKey| x == k, |x: FuncKey| x == k, |x: FuncKey| x == k);
        lemma_define_full(fs0, k, body@);
        assert(params_ok(module@, k));
    }
}

// ---------------------------------------------------------------------------
// Fields and controls
// ---------------------------------------------------------------------------
/// The keys of the lifecycle functions of a control of type `ct`.
pub open spec fn lifecycle_keys(ct: ControlType) -> spec_fn(FuncKey) -> bool {
    |k: FuncKey| k is Lifecycle && k.control_type() == ct
}

/// The keys of the user interface lifecycle functions of a control of type
/// `ct`.
pub open spec fn ui_lifecycle_keys(ct: ControlType) -> spec_fn(FuncKey) -> bool {
    |k: FuncKey| k is UiLifecycle && k.control_type() == ct
}

/// The keys of all getters and setters.
pub open spec fn field_keys() -> spec_fn(FuncKey) -> bool {
    |k: FuncKey| k is Getter || k is Setter
}

/// The keys of the functions that building a control of type `ct` for a
/// target touches: its lifecycle functions, getters and setters, and its user
/// interface lifecycle functions when the target includes the user interface.
pub open spec fn build_keys(ct: ControlType, include_ui: bool) -> spec_fn(FuncKey) -> bool {
    |k: FuncKey|
        lifecycle_keys(ct)(k) || field_keys()(k) || (include_ui && ui_lifecycle_keys(ct)(k))
}

/// The module after the construct, update and destroy functions of a
/// control of type `ct` are defined, in that order, with the given code
/// followed by a return.
pub open spec fn lifecycle_module(
    fs: Seq<FuncView>,
    ct: ControlType,
    construct: Seq<Instr>,
    update: Seq<Instr>,
    destruct: Seq<Instr>,
) -> Seq<FuncView> {
    define_key(
        define_key(
            define_key(fs, FuncKey::Lifecycle(ct, LifecycleFunc::Construct), construct.push(Instr::RetVoid)),
            FuncKey::Lifecycle(ct, LifecycleFunc::Update),
            update.push(Instr::RetVoid),
        ),
        FuncKey::Lifecycle(ct, LifecycleFunc::Destruct),
        destruct.push(Instr::RetVoid),
    )
}

/// The module after the user interface construct, update and destroy
/// functions of a control of type `ct` are defined, in that order, with the
/// given code followed by a return.
pub open spec fn ui_lifecycle_module(
    fs: Seq<FuncView>,
    ct: ControlType,
    construct: Seq<Instr>,
    update: Seq<Instr>,
    destruct: Seq<Instr>,
) -> Seq<FuncView> {
    define_key(
        define_key(
            define_key(fs, FuncKey::UiLifecycle(ct, LifecycleFunc::Construct), construct.push(Instr::RetVoid)),
            FuncKey::UiLifecycle(ct, LifecycleFunc::Update),
            update.push(Instr::RetVoid),
        ),
        FuncKey::UiLifecycle(ct, LifecycleFunc::Destruct),
        destruct.push(Instr::RetVoid),
    )
}

/// Every lifecycle function of a control of type `ct` that the module has
/// takes at least the two parameters its body reads.
pub open spec fn lifecycle_ready(fs: Seq<FuncView>, ct: ControlType) -> bool {
    forall|lc: LifecycleFunc| #[trigger] params_ok(fs, FuncKey::Lifecycle(ct, lc))
}

/// Every user interface lifecycle function of a control of type `ct` that
/// the module has takes at least the three parameters its body reads.
pub open spec fn ui_lifecycle_ready(fs: Seq<FuncView>, ct: ControlType) -> bool {
    forall|lc: LifecycleFunc| #[trigger] params_ok(fs, FuncKey::UiLifecycle(ct, lc))
}

/// Every getter and setter of a field of `rs` that the module has takes at
/// least the three parameters its body reads.
pub open spec fn fields_ready(fs: Seq<FuncView>, rs: Seq<FieldRequest>) -> bool {
    forall|j: int|
        0 <= j < rs.len() ==> params_ok(fs, FuncKey::Getter(#[trigger] rs[j].field)) && params_ok(
            fs,
            FuncKey::Setter(rs[j].field),
        )
}

/// The body of the function with `k`'s name, if the module has one.
pub open spec fn body_of(fs: Seq<FuncView>, k: FuncKey) -> Option<Seq<Instr>> {
    match find_name(fs, k.spec_name()) {
        Some(i) => fs[i].body,
        None => None,
    }
}

/// The parameter types of the function with `k`'s name, if the module has
/// one.
pub open spec fn params_of(fs: Seq<FuncView>, k: FuncKey) -> Option<Seq<StructRef>> {
    match find_name(fs, k.spec_name()) {
        Some(i) => Some(fs[i].params),
        None => None,
    }
}

/// Defining `k` with `body` gives `k`'s function that body and leaves the
/// body of every other key's function as it was.
pub proof fn lemma_body_of_define(fs: Seq<FuncView>, k: FuncKey, body: Seq<Instr>, k2: FuncKey)
    requires
        names_distinct(fs),
        body.len() > 0,
        body.last() == Instr::RetVoid,
    ensures
        k2 == k ==> body_of(define_key(fs, k, body), k2) == Some(body),
        k2 != k ==> body_of(define_key(fs, k, body), k2) == body_of(fs, k2),
{
    lemma_define_full(fs, k, body);
    lemma_declare_key(fs, k);
    let fs1 = with_key(fs, k);
    let i = key_index(fs, k);
    let fs2 = define_key(fs, k, body);
    if k2 != k {
        assert(same_declared(fs, fs2, k2));
        if find_name(fs, k2.spec_name()) is Some {
            let j = find_name(fs, k2.spec_name())->0;
            lemma_find_name(fs, k2.spec_name(), j);
            assert(fs1[j] == fs[j]);
            if j == i {
                lemma_name_injective(k, k2);
            }
            lemma_find_name(fs2, k2.spec_name(), j);
        }
    }
}

/// Law: the construct, update and destroy functions of a control each get
/// the code meant for their own stage, followed by a return, whatever the
/// module held before.
pub proof fn law_lifecycle_bodies(
    fs: Seq<FuncView>,
    ct: ControlType,
    construct: Seq<Instr>,
    update: Seq<Instr>,
    destruct: Seq<Instr>,
)
    requires
        names_distinct(fs),
    ensures
        body_of(lifecycle_module(fs, ct, construct, update, destruct), FuncKey::Lifecycle(ct, LifecycleFunc::Construct))
            == Some(construct.push(Instr::RetVoid)),
        body_of(lifecycle_module(fs, ct, construct, update, destruct), FuncKey::Lifecycle(ct, LifecycleFunc::Update))
            == Some(update.push(Instr::RetVoid)),
        body_of(lifecycle_module(fs, ct, construct, update, destruct), FuncKey::Lifecycle(ct, LifecycleFunc::Destruct))
            == Some(destruct.push(Instr::RetVoid)),
{
    let kc = FuncKey::Lifecycle(ct, LifecycleFunc::Construct);
    let ku = FuncKey::Lifecycle(ct, LifecycleFunc::Update);
    let kd = FuncKey::Lifecycle(ct, LifecycleFunc::Destruct);
    let bc = construct.push(Instr::RetVoid);
    let bu = update.push(Instr::RetVoid);
    let bd = destruct.push(Instr::RetVoid);
    let f1 = define_key(fs, kc, bc);
    let f2 = define_key(f1, ku, bu);
    lemma_define_full(fs, kc, bc);
    lemma_define_full(f1, ku, bu);
    lemma_body_of_define(fs, kc, bc, kc);
    lemma_body_of_define(f1, ku, bu, kc);
    lemma_body_of_define(f1, ku, bu, ku);
    lemma_body_of_define(f2, kd, bd, kc);
    lemma_body_of_define(f2, kd, bd, ku);
    lemma_body_of_define(f2, kd, bd, kd);
}

/// Law: the user interface construct, update and destroy functions of a
/// control each get the code meant for their own stage, followed by a
/// return, whatever the module held before.
pub proof fn law_ui_lifecycle_bodies(
    fs: Seq<FuncView>,
    ct: ControlType,
    construct: Seq<Instr>,
    update: Seq<Instr>,
    destruct: Seq<Instr>,
)
    requires
        names_distinct(fs),
    ensures
        body_of(ui_lifecycle_module(fs, ct, construct, update, destruct), FuncKey::UiLifecycle(ct, LifecycleFunc::Construct))
            == Some(construct.push(Instr::RetVoid)),
        body_of(ui_lifecycle_module(fs, ct, construct, update, destruct), FuncKey::UiLifecycle(ct, LifecycleFunc::Update))
            == Some(update.push(Instr::RetVoid)),
        body_of(ui_lifecycle_module(fs, ct, construct, update, destruct), FuncKey::UiLifecycle(ct, LifecycleFunc::Destruct))
            == Some(destruct.push(Instr::RetVoid)),
{
    let kc = FuncKey::UiLifecycle(ct, LifecycleFunc::Construct);
    let ku = FuncKey::UiLifecycle(ct, LifecycleFunc::Update);
    let kd = FuncKey::UiLifecycle(ct, LifecycleFunc::Destruct);
    let bc = construct.push(Instr::RetVoid);
    let bu = update.push(Instr::RetVoid);
    let bd = destruct.push(Instr::RetVoid);
    let f1 = define_key(fs, kc, bc);
    let f2 = define_key(f1, ku, bu);
    lemma_define_full(fs, kc, bc);
    lemma_define_full(f1, ku, bu);
    lemma_body_of_define(fs, kc, bc, kc);
    lemma_body_of_define(f1, ku, bu, kc);
    lemma_body_of_define(f1, ku, bu, ku);
    lemma_body_of_define(f2, kd, bd, kc);
    lemma_body_of_define(f2, kd, bd, ku);
    lemma_body_of_define(f2, kd, bd, kd);
}

/// Law: in a module whose signatures are consistent (every module built
/// only by this library, starting from an empty one), looking up or
/// declaring a control function gives it these parameter types: the group's
/// values, then the control's data, then, for a user interface lifecycle
/// function, the user interface state, and for a getter or setter, the
/// field's value.
pub proof fn law_control_function_params(
    fs: Seq<FuncView>,
    ct: ControlType,
    lc: LifecycleFunc,
    f: ControlField,
)
    requires
        names_distinct(fs),
        signatures_consistent(fs),
    ensures
        params_of(with_key(fs, FuncKey::Lifecycle(ct, lc)), FuncKey::Lifecycle(ct, lc)) == Some(
            seq![StructRef::Group(ct), StructRef::Data(ct)],
        ),
        params_of(with_key(fs, FuncKey::UiLifecycle(ct, lc)), FuncKey::UiLifecycle(ct, lc)) == Some(
            seq![StructRef::Group(ct), StructRef::Data(ct), spec_ui_type(ct)],
        ),
        params_of(with_key(fs, FuncKey::Getter(f)), FuncKey::Getter(f)) == Some(
            seq![
                StructRef::Group(f.control_type),
                StructRef::Data(f.control_type),
                StructRef::Field(f),
            ],
        ),
        params_of(with_key(fs, FuncKey::Setter(f)), FuncKey::Setter(f)) == Some(
            seq![
                StructRef::Group(f.control_type),
                StructRef::Data(f.control_type),
                StructRef::Field(f),
            ],
        ),
        spec_ui_type(ct) == (if ct == ControlType::Graph || ct == ControlType::Roll || ct
            == ControlType::Scope {
            StructRef::Data(ct)
        } else {
            StructRef::Ui(ct)
        }),
{
    lemma_declare_key(fs, FuncKey::Lifecycle(ct, lc));
    lemma_declare_key(fs, FuncKey::UiLifecycle(ct, lc));
    lemma_declare_key(fs, FuncKey::Getter(f));
    lemma_declare_key(fs, FuncKey::Setter(f));
}

/// Receives, for each field of a control, the code of its getter and of its
/// setter.
pub trait ControlFieldGenerator {
    /// The module that the generator started from.
    spec fn start(&self) -> Seq<FuncView>;

    /// The fields handed over so far, with their code, in the order handed.
    spec fn requested(&self) -> Seq<FieldRequest>;

    /// Whether the getter and the setter of `field` can be built now: any
    /// function of their names already in the module takes the three
    /// parameters their bodies read.
    spec fn ready(&self, field: ControlField) -> bool;

    /// Hands over `field` with the code of its getter and of its setter.
    fn generate(
        &mut self,
        field: ControlField,
        get_cb: ControlFieldGeneratorCb,
        set_cb: ControlFieldGeneratorCb,
    )
        requires
            old(self).ready(field),
        ensures
            final(self).start() == old(self).start(),
            final(self).requested() == old(self).requested().push(
                FieldRequest { field, get_cb, set_cb },
            ),
            forall|f: ControlField| old(self).ready(f) ==> #[trigger] final(self).ready(f),
    ;
}

/// A field whose getter and setter were asked for, with their code.
#[derive(Debug, PartialEq, Eq)]
pub struct FieldRequest {
    pub field: ControlField,
    pub get_cb: ControlFieldGeneratorCb,
    pub set_cb: ControlFieldGeneratorCb,
}

/// The module after the getter of `r.field` is looked up, declared if
/// missing and given the body of `r.get_cb`, and then the setter likewise
/// with the body of `r.set_cb`.
pub open spec fn apply_request(fs: Seq<FuncView>, r: FieldRequest) -> Seq<FuncView> {
    define_key(
        define_key(fs, FuncKey::Getter(r.field), field_body(r.get_cb)),
        FuncKey::Setter(r.field),
        field_body(r.set_cb),
    )
}

/// The module after the getters and setters of `rs` are built, in order.
pub open spec fn apply_requests(fs: Seq<FuncView>, rs: Seq<FieldRequest>) -> Seq<FuncView>
    decreases rs.len(),
{
    if rs.len() == 0 {
        fs
    } else {
        apply_request(apply_requests(fs, rs.drop_last()), rs.last())
    }
}

/// Defines the getter and the setter of `request.field` with the code
/// asked for.
fn build_field_request(module: &mut IrModule, request: FieldRequest)
    requires
        params_ok(old(module)@, FuncKey::Getter(request.field)),
        params_ok(old(module)@, FuncKey::Setter(request.field)),
    ensures
        forall|k: FuncKey| params_ok(old(module)@, k) ==> #[trigger] params_ok(final(module)@, k),
        final(module)@ == apply_request(old(module)@, request),
        steps_to(old(module)@, final(module)@, field_keys()),
        field_bodies_only(old(module)@, final(module)@),
        defines(final(module)@, FuncKey::Getter(request.field)),
        defines(final(module)@, FuncKey::Setter(request.field)),
{
    let ghost r = request;
    let FieldRequest { field, get_cb, set_cb } = request;
    let ghost kg = FuncKey::Getter(field);
    let ghost ks = FuncKey::Setter(field);
    proof {
        use_type_invariant(&*module);
    }
    let ghost fs0 = module@;
    let getter = get_field_getter_func(module, field);
    let ghost fs1 = module@;
    proof {
        use_type_invariant(&*module);
        lemma_declare_params(fs0, kg);
    }
    build_field_func(module, getter, get_cb);
    let ghost fs2 = module@;
    proof {
        lemma_define_key(fs1, getter as int, field_body(r.get_cb), kg);
        lemma_steps_compose(fs0, fs1, fs2, |x: FuncKey| x == kg, |x: FuncKey| x == kg, |x: FuncKey| x == kg);
        lemma_field_define(fs0, kg, r.get_cb);
        lemma_define_full(fs0, kg, field_body(r.get_cb));
        use_type_invariant(&*module);
    }
    let setter = get_field_setter_func(module, field);
    let ghost fs3 = module@;
    proof {
        use_type_invariant(&*module);
        lemma_declare_params(fs2, ks);
    }
    build_field_func(module, setter, set_cb);
    proof {
        lemma_define_key(fs3, setter as int, field_body(r.set_cb), ks);
        lemma_field_define(fs2, ks, r.set_cb);
        lemma_define_full(fs2, ks, field_body(r.set_cb));
        lemma_field_bodies_compose(fs0, fs2, module@);
        lemma_steps_compose(fs2, fs3, module@, |x: FuncKey| x == ks, |x: FuncKey| x == ks, |x: FuncKey| x == ks);
        lemma_steps_compose(fs0, fs2, module@, |x: FuncKey| x == kg, |x: FuncKey| x == ks, |x: FuncKey| x == kg || x == ks);
        lemma_steps_widen(fs0, module@, |x: FuncKey| x == kg || x == ks, field_keys());
        assert(!(|x: FuncKey| x == ks)(kg));
    }
}

/// The getters and setters built by `rs`, in order, keep names distinct,
/// touch only getters and setters, give them only their bodies, and keep
/// every key's parameters sufficient.
pub proof fn lemma_apply_requests(fs: Seq<FuncView>, rs: Seq<FieldRequest>)
    requires
        names_distinct(fs),
    ensures
        names_distinct(apply_requests(fs, rs)),
        steps_to(fs, apply_requests(fs, rs), field_keys()),
        field_bodies_only(fs, apply_requests(fs, rs)),
        forall|k: FuncKey| params_ok(fs, k) ==> #[trigger] params_ok(apply_requests(fs, rs), k),
    decreases rs.len(),
{
    if rs.len() > 0 {
        let m = apply_requests(fs, rs.drop_last());
        lemma_apply_requests(fs, rs.drop_last());
        let r = rs.last();
        let kg = FuncKey::Getter(r.field);
        let ks = FuncKey::Setter(r.field);
        let a = define_key(m, kg, field_body(r.get_cb));
        let b = define_key(a, ks, field_body(r.set_cb));
        lemma_define_full(m, kg, field_body(r.get_cb));
        lemma_define_full(a, ks, field_body(r.set_cb));
        lemma_field_define(m, kg, r.get_cb);
        lemma_field_define(a, ks, r.set_cb);
        lemma_steps_widen(m, a, |x: FuncKey| x == kg, field_keys());
        lemma_steps_widen(a, b, |x: FuncKey| x == ks, field_keys());
        lemma_steps_compose(m, a, b, field_keys(), field_keys(), field_keys());
        lemma_steps_compose(fs, m, b, field_keys(), field_keys(), field_keys());
        lemma_field_bodies_compose(m, a, b);
        lemma_field_bodies_compose(fs, m, b);
    }
}

/// Builds, into the module it holds, the getter and setter of each field
/// handed over, as it is handed over.
struct PrivateGenerator {
    module: IrModule,
    start: Ghost<Seq<FuncView>>,
    requests: Ghost<Seq<FieldRequest>>,
}

impl PrivateGenerator {
    /// The module built so far.
    pub closed spec fn built(&self) -> Seq<FuncView> {
        self.module@
    }

    /// The module holds the starting module with the requests handed over
    /// so far built into it.
    #[verifier::type_invariant]
    spec fn built_so_far(self) -> bool {
        self.module@ == apply_requests(self.start@, self.requests@)
    }
}

impl ControlFieldGenerator for PrivateGenerator {
    closed spec fn start(&self) -> Seq<FuncView> {
        self.start@
    }

    closed spec fn requested(&self) -> Seq<FieldRequest> {
        self.requests@
    }

    closed spec fn ready(&self, field: ControlField) -> bool {
        params_ok(self.module@, FuncKey::Getter(field)) && params_ok(
            self.module@,
            FuncKey::Setter(field),
        )
    }

    /// Looks up the getter of `field`, declaring it if missing, and gives it
    /// the body of `get_cb`; then the setter likewise with `set_cb`.
    fn generate(
        &mut self,
        field: ControlField,
        get_cb: ControlFieldGeneratorCb,
        set_cb: ControlFieldGeneratorCb,
    )
        ensures
            final(self).built() == apply_request(
                old(self).built(),
                FieldRequest { field, get_cb, set_cb },
            ),
    {
        proof {
            use_type_invariant(&*self);
        }
        let mut taken = PrivateGenerator {
            module: IrModule::new(),
            start: Ghost(Seq::empty()),
            requests: Ghost(Seq::empty()),
        };
        std::mem::swap(&mut taken, self);
        let PrivateGenerator { module: mut module, start, requests } = taken;
        let request = FieldRequest { field, get_cb, set_cb };
        let ghost rs = requests@.push(request);
        build_field_request(&mut module, request);
        proof {
            assert(rs.drop_last() =~= requests@);
        }
        *self = PrivateGenerator { module, start, requests: Ghost(rs) };
    }
}

/// A kind of control: the code generated for its lifecycle, its user
/// interface and its fields.
pub trait Control {
    /// The control type this kind of control is.
    spec fn spec_control_type() -> ControlType;

    fn control_type() -> (r: ControlType)
        ensures
            r == Self::spec_control_type(),
    ;

    /// The layout of the control's data; none by default.
    fn data_type() -> (r: StructRef)
        default_ensures
            r == StructRef::Empty,
    {
        StructRef::Empty
    }

    /// The layout of the control's user interface state; none by default.
    fn ui_type() -> (r: StructRef)
        default_ensures
            r == StructRef::Empty,
    {
        StructRef::Empty
    }

    /// What `gen_construct` makes of a context; nothing by default.
    open spec fn spec_construct(c: ContextView) -> ContextView {
        c
    }

    /// Writes the code run when a control is created.
    fn gen_construct(control: &mut ControlContext)
        ensures
            final(control)@ == Self::spec_construct(old(control)@),
    ;

    /// What `gen_update` makes of a context; nothing by default.
    open spec fn spec_update(c: ContextView) -> ContextView {
        c
    }

    /// Writes the code run at each update of a control.
    fn gen_update(control: &mut ControlContext)
        ensures
            final(control)@ == Self::spec_update(old(control)@),
    ;

    /// What `gen_destruct` makes of a context; nothing by default.
    open spec fn spec_destruct(c: ContextView) -> ContextView {
        c
    }

    /// Writes the code run when a control is destroyed.
    fn gen_destruct(control: &mut ControlContext)
        ensures
            final(control)@ == Self::spec_destruct(old(control)@),
    ;

    /// What `gen_ui_construct` makes of a context; nothing by default.
    open spec fn spec_ui_construct(c: UiContextView) -> UiContextView {
        c
    }

    /// Writes the code run when a control's user interface is created.
    fn gen_ui_construct(control: &mut ControlUiContext)
        ensures
            final(control)@ == Self::spec_ui_construct(old(control)@),
    ;

    /// What `gen_ui_update` makes of a context; nothing by default.
    open spec fn spec_ui_update(c: UiContextView) -> UiContextView {
        c
    }

    /// Writes the code run at each update of a control's user interface.
    fn gen_ui_update(control: &mut ControlUiContext)
        ensures
            final(control)@ == Self::spec_ui_update(old(control)@),
    ;

    /// What `gen_ui_destruct` makes of a context; nothing by default.
    open spec fn spec_ui_destruct(c: UiContextView) -> UiContextView {
        c
    }

    /// Writes the code run when a control's user interface is destroyed.
    fn gen_ui_destruct(control: &mut ControlUiContext)
        ensures
            final(control)@ == Self::spec_ui_destruct(old(control)@),
    ;

    /// The fields of the control with the code of their getters and setters,
    /// in the order `gen_fields` hands them over; none by default.
    open spec fn spec_fields() -> Seq<FieldRequest> {
        Seq::empty()
    }

    /// Hands `generator` each field of the control with the code of its
    /// getter and setter.
    fn gen_fields<G: ControlFieldGenerator>(generator: &mut G)
        requires
            forall|j: int|
                0 <= j < Self::spec_fields().len() ==> old(generator).ready(
                    #[trigger] Self::spec_fields()[j].field,
                ),
        ensures
            final(generator).start() == old(generator).start(),
            final(generator).requested() == old(generator).requested() + Self::spec_fields(),
    ;

    /// Defines the construct, update and destruct functions of the control.
    fn build_lifecycle_funcs(module: &mut IrModule)
        requires
            lifecycle_ready(old(module)@, Self::spec_control_type()),
        ensures
            final(module)@ == lifecycle_module(
                old(module)@,
                Self::spec_control_type(),
                Self::spec_construct(entry_view()).body,
                Self::spec_update(entry_view()).body,
                Self::spec_destruct(entry_view()).body,
            ),
            forall|k: FuncKey| params_ok(old(module)@, k) ==> #[trigger] params_ok(final(module)@, k),
            forall|lc: LifecycleFunc|
                #[trigger] defines(final(module)@, FuncKey::Lifecycle(Self::spec_control_type(), lc)),
            steps_to(old(module)@, final(module)@, lifecycle_keys(Self::spec_control_type())),
            body_of(final(module)@, FuncKey::Lifecycle(Self::spec_control_type(), LifecycleFunc::Construct))
                == Some(Self::spec_construct(entry_view()).body.push(Instr::RetVoid)),
            body_of(final(module)@, FuncKey::Lifecycle(Self::spec_control_type(), LifecycleFunc::Update))
                == Some(Self::spec_update(entry_view()).body.push(Instr::RetVoid)),
            body_of(final(module)@, FuncKey::Lifecycle(Self::spec_control_type(), LifecycleFunc::Destruct))
                == Some(Self::spec_destruct(entry_view()).body.push(Instr::RetVoid)),
    {
        let ct = Self::control_type();
        proof {
            use_type_invariant(&*module);
        }
        let ghost fs0 = module@;
        let ghost kc = FuncKey::Lifecycle(ct, LifecycleFunc::Construct);
        let ghost ku = FuncKey::Lifecycle(ct, LifecycleFunc::Update);
        let ghost kd = FuncKey::Lifecycle(ct, LifecycleFunc::Destruct);
        let mut construct = ControlContext::entry();
        Self::gen_construct(&mut construct);
        let ghost body_c = construct@.body.push(Instr::RetVoid);
        build_lifecycle_func(module, ct, LifecycleFunc::Construct, construct);
        let ghost fs1 = module@;
        proof {
            lemma_define_full(fs0, kc, body_c);
        }
        let mut update = ControlContext::entry();
        Self::gen_update(&mut update);
        let ghost body_u = update@.body.push(Instr::RetVoid);
        build_lifecycle_func(module, ct, LifecycleFunc::Update, update);
        let ghost fs2 = module@;
        proof {
            lemma_define_full(fs1, ku, body_u);
        }
        let mut destruct = ControlContext::entry();
        Self::gen_destruct(&mut destruct);
        let ghost body_d = destruct@.body.push(Instr::RetVoid);
        build_lifecycle_func(module, ct, LifecycleFunc::Destruct, destruct);
        proof {
            law_lifecycle_bodies(fs0, ct, body_c.drop_last(), body_u.drop_last(), body_d.drop_last());
            assert(body_c.drop_last().push(Instr::RetVoid) == body_c);
            assert(body_u.drop_last().push(Instr::RetVoid) == body_u);
            assert(body_d.drop_last().push(Instr::RetVoid) == body_d);
        }
        proof {
            lemma_define_full(fs2, kd, body_d);
            assert(!(|x: FuncKey| x == ku)(kc));
            assert(!(|x: FuncKey| x == kd)(kc));
            assert(!(|x: FuncKey| x == kd)(ku));
            assert(defines(fs2, kc));
            assert(defines(module@, kc));
            assert(defines(module@, ku));
            assert forall|lc: LifecycleFunc|
                #[trigger] defines(module@, FuncKey::Lifecycle(ct, lc)) by {
                match lc {
                    LifecycleFunc::Construct => {},
                    LifecycleFunc::Update => {},
                    LifecycleFunc::Destruct => {},
                }
            }
            lemma_steps_widen(fs0, fs1, |x: FuncKey| x == kc, lifecycle_keys(ct));
            lemma_steps_widen(fs1, fs2, |x: FuncKey| x == ku, lifecycle_keys(ct));
            lemma_steps_widen(fs2, module@, |x: FuncKey| x == kd, lifecycle_keys(ct));
            lemma_steps_compose(fs0, fs1, fs2, lifecycle_keys(ct), lifecycle_keys(ct), lifecycle_keys(ct));
            lemma_steps_compose(fs0, fs2, module@, lifecycle_keys(ct), lifecycle_keys(ct), lifecycle_keys(ct));
        }
    }

    /// Defines the construct, update and destruct functions of the control's
    /// user interface.
    fn build_ui_lifecycle_funcs(module: &mut IrModule)
        requires
            ui_lifecycle_ready(old(module)@, Self::spec_control_type()),
        ensures
            final(module)@ == ui_lifecycle_module(
                old(module)@,
                Self::spec_control_type(),
                Self::spec_ui_construct(ui_entry_view()).body,
                Self::spec_ui_update(ui_entry_view()).body,
                Self::spec_ui_destruct(ui_entry_view()).body,
            ),
            forall|k: FuncKey| params_ok(old(module)@, k) ==> #[trigger] params_ok(final(module)@, k),
            forall|lc: LifecycleFunc|
                #[trigger] defines(final(module)@, FuncKey::UiLifecycle(Self::spec_control_type(), lc)),
            steps_to(old(module)@, final(module)@, ui_lifecycle_keys(Self::spec_control_type())),
            body_of(final(module)@, FuncKey::UiLifecycle(Self::spec_control_type(), LifecycleFunc::Construct))
                == Some(Self::spec_ui_construct(ui_entry_view()).body.push(Instr::RetVoid)),
            body_of(final(module)@, FuncKey::UiLifecycle(Self::spec_control_type(), LifecycleFunc::Update))
                == Some(Self::spec_ui_update(ui_entry_view()).body.push(Instr::RetVoid)),
            body_of(final(module)@, FuncKey::UiLifecycle(Self::spec_control_type(), LifecycleFunc::Destruct))
                == Some(Self::spec_ui_destruct(ui_entry_view()).body.push(Instr::RetVoid)),
    {
        let ct = Self::control_type();
        proof {
            use_type_invariant(&*module);
        }
        let ghost fs0 = module@;
        let ghost kc = FuncKey::UiLifecycle(ct, LifecycleFunc::Construct);
        let ghost ku = FuncKey::UiLifecycle(ct, LifecycleFunc::Update);
        let ghost kd = FuncKey::UiLifecycle(ct, LifecycleFunc::Destruct);
        let mut construct = ControlUiContext::entry();
        Self::gen_ui_construct(&mut construct);
        let ghost body_c = construct@.body.push(Instr::RetVoid);
        build_ui_lifecycle_func(module, ct, LifecycleFunc::Construct, construct);
        let ghost fs1 = module@;
        proof {
            lemma_define_full(fs0, kc, body_c);
        }
        let mut update = ControlUiContext::entry();
        Self::gen_ui_update(&mut update);
        let ghost body_u = update@.body.push(Instr::RetVoid);
        build_ui_lifecycle_func(module, ct, LifecycleFunc::Update, update);
        let ghost fs2 = module@;
        proof {
            lemma_define_full(fs1, ku, body_u);
        }
        let mut destruct = ControlUiContext::entry();
        Self::gen_ui_destruct(&mut destruct);
        let ghost body_d = destruct@.body.push(Instr::RetVoid);
        build_ui_lifecycle_func(module, ct, LifecycleFunc::Destruct, destruct);
        proof {
            law_ui_lifecycle_bodies(fs0, ct, body_c.drop_last(), body_u.drop_last(), body_d.drop_last());
            assert(body_c.drop_last().push(Instr::RetVoid) == body_c);
            assert(body_u.drop_last().push(Instr::RetVoid) == body_u);
            assert(body_d.drop_last().push(Instr::RetVoid) == body_d);
        }
        proof {
            lemma_define_full(fs2, kd, body_d);
            assert(!(|x: FuncKey| x == ku)(kc));
            assert(!(|x: FuncKey| x == kd)(kc));
            assert(!(|x: FuncKey| x == kd)(ku));
            assert(defines(fs2, kc));
            assert(defines(module@, kc));
            assert(defines(module@, ku));
            assert forall|lc: LifecycleFunc|
                #[trigger] defines(module@, FuncKey::UiLifecycle(ct, lc)) by {
                match lc {
                    LifecycleFunc::Construct => {},
                    LifecycleFunc::Update => {},
                    LifecycleFunc::Destruct => {},
                }
            }
            lemma_steps_widen(fs0, fs1, |x: FuncKey| x == kc, ui_lifecycle_keys(ct));
            lemma_steps_widen(fs1, fs2, |x: FuncKey| x == ku, ui_lifecycle_keys(ct));
            lemma_steps_widen(fs2, module@, |x: FuncKey| x == kd, ui_lifecycle_keys(ct));
            lemma_steps_compose(fs0, fs1, fs2, ui_lifecycle_keys(ct), ui_lifecycle_keys(ct), ui_lifecycle_keys(ct));
            lemma_steps_compose(fs0, fs2, module@, ui_lifecycle_keys(ct), ui_lifecycle_keys(ct), ui_lifecycle_keys(ct));
        }
    }

    /// Defines the getter and setter of every field that `gen_fields` hands
    /// over, in the order handed, each with the body of its callback.
    fn build_field_funcs(module: &mut IrModule)
        requires
            fields_ready(old(module)@, Self::spec_fields()),
        ensures
            final(module)@ == apply_requests(old(module)@, Self::spec_fields()),
            forall|k: FuncKey| params_ok(old(module)@, k) ==> #[trigger] params_ok(final(module)@, k),
            steps_to(old(module)@, final(module)@, field_keys()),
            field_bodies_only(old(module)@, final(module)@),
    {
        proof {
            use_type_invariant(&*module);
        }
        let ghost fs0 = module@;
        let mut taken = IrModule::new();
        std::mem::swap(&mut taken, module);
        let mut generator = PrivateGenerator {
            module: taken,
            start: Ghost(fs0),
            requests: Ghost(Seq::empty()),
        };
        assert forall|j: int|
            0 <= j < Self::spec_fields().len() implies generator.ready(
            #[trigger] Self::spec_fields()[j].field,
        ) by {}
        Self::gen_fields(&mut generator);
        proof {
            use_type_invariant(&generator);
            assert(generator.requests@ =~= Self::spec_fields());
            lemma_apply_requests(fs0, Self::spec_fields());
        }
        let PrivateGenerator { module: built, .. } = generator;
        *module = built;
    }

    /// Defines every function of the control for `target`: its lifecycle
    /// functions, then the getters and setters of its fields, then, when the
    /// target includes the user interface, its user interface lifecycle
    /// functions.
    fn build_funcs(module: &mut IrModule, target: &TargetProperties)
        requires
            lifecycle_ready(old(module)@, Self::spec_control_type()),
            fields_ready(old(module)@, Self::spec_fields()),
            target.include_ui ==> ui_lifecycle_ready(old(module)@, Self::spec_control_type()),
        ensures
            ({
                let lifecycles = lifecycle_module(
                    old(module)@,
                    Self::spec_control_type(),
                    Self::spec_construct(entry_view()).body,
                    Self::spec_update(entry_view()).body,
                    Self::spec_destruct(entry_view()).body,
                );
                let fields = apply_requests(lifecycles, Self::spec_fields());
                final(module)@ == if target.include_ui {
                    ui_lifecycle_module(
                        fields,
                        Self::spec_control_type(),
                        Self::spec_ui_construct(ui_entry_view()).body,
                        Self::spec_ui_update(ui_entry_view()).body,
                        Self::spec_ui_destruct(ui_entry_view()).body,
                    )
                } else {
                    fields
                }
            }),
            forall|lc: LifecycleFunc|
                #[trigger] defines(final(module)@, FuncKey::Lifecycle(Self::spec_control_type(), lc)),
            target.include_ui ==> forall|lc: LifecycleFunc|
                #[trigger] defines(final(module)@, FuncKey::UiLifecycle(Self::spec_control_type(), lc)),
            steps_to(
                old(module)@,
                final(module)@,
                build_keys(Self::spec_control_type(), target.include_ui),
            ),
            field_funcs_copy(old(module)@, final(module)@),
    {
        let ghost ct = Self::spec_control_type();
        let ghost fs0 = module@;
        Self::build_lifecycle_funcs(module);
        let ghost fs1 = module@;
        assert(fields_ready(fs1, Self::spec_fields()));
        Self::build_field_funcs(module);
        let ghost fs2 = module@;
        proof {
            assert forall|lc: LifecycleFunc|
                #[trigger] defines(fs2, FuncKey::Lifecycle(ct, lc)) by {
                assert(defines(fs1, FuncKey::Lifecycle(ct, lc)));
                assert(!field_keys()(FuncKey::Lifecycle(ct, lc)));
            }
            lemma_steps_compose(fs0, fs1, fs2, lifecycle_keys(ct), field_keys(), |k: FuncKey| lifecycle_keys(ct)(k) || field_keys()(k));
            lemma_no_field_step(fs0, fs1, lifecycle_keys(ct));
            assert(field_funcs_copy(fs1, fs2));
            lemma_field_funcs_compose(fs0, fs1, fs2);
            lemma_steps_widen(fs0, fs2, |k: FuncKey| lifecycle_keys(ct)(k) || field_keys()(k), build_keys(ct, target.include_ui));
        }
        if target.include_ui {
            assert(ui_lifecycle_ready(module@, ct));
            Self::build_ui_lifecycle_funcs(module);
            proof {
                assert forall|lc: LifecycleFunc|
                    #[trigger] defines(module@, FuncKey::Lifecycle(ct, lc)) by {
                    assert(defines(fs2, FuncKey::Lifecycle(ct, lc)));
                    assert(!ui_lifecycle_keys(ct)(FuncKey::Lifecycle(ct, lc)));
                }
                lemma_steps_compose(fs0, fs2, module@, build_keys(ct, true), ui_lifecycle_keys(ct), build_keys(ct, true));
                lemma_no_field_step(fs2, module@, ui_lifecycle_keys(ct));
                lemma_field_funcs_compose(fs0, fs2, module@);
            }
        }
    }
}

} // verus!
