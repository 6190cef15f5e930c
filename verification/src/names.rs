//! Symbol names of the functions generated for controls, and the proof that
//! no two of them share a name.
use vstd::prelude::*;
use vstd::string::StringExecFns;
use crate::control::{ControlField, ControlType, LifecycleFunc};

verus! {

/// One of the functions generated for a control.
#[derive(Clone, Copy, Debug, PartialEq, Eq, Structural)]
pub enum FuncKey {
    /// The function run at a lifecycle stage of a control's state.
    Lifecycle(ControlType, LifecycleFunc),
    /// The function run at a lifecycle stage of a control's user interface.
    UiLifecycle(ControlType, LifecycleFunc),
    /// The function that reads a field.
    Getter(ControlField),
    /// The function that writes a field.
    Setter(ControlField),
}

/// The text that every control function's name starts with.
pub open spec fn name_prefix() -> Seq<char> {
    "maxim.control."@
}

impl FuncKey {
    /// The kind of control the function belongs to.
    pub open spec fn control_type(self) -> ControlType {
        match self {
            FuncKey::Lifecycle(ct, _) => ct,
            FuncKey::UiLifecycle(ct, _) => ct,
            FuncKey::Getter(f) => f.control_type,
            FuncKey::Setter(f) => f.control_type,
        }
    }

    /// The symbol name of the function: `maxim.control.<control>.<stage>`,
    /// `maxim.control.<control>.ui_<stage>`, `maxim.control.<field>.getter` or
    /// `maxim.control.<field>.setter`.
    pub open spec fn spec_name(self) -> Seq<char> {
        match self {
            FuncKey::Lifecycle(ct, lc) => name_prefix() + ct.spec_name() + "."@ + lc.spec_name(),
            FuncKey::UiLifecycle(ct, lc) => name_prefix() + ct.spec_name() + ".ui_"@
                + lc.spec_name(),
            FuncKey::Getter(f) => name_prefix() + f.spec_name() + ".getter"@,
            FuncKey::Setter(f) => name_prefix() + f.spec_name() + ".setter"@,
        }
    }

    /// What follows `maxim.control.<control>.` in the name.
    pub open spec fn name_tail(self) -> Seq<char> {
        match self {
            FuncKey::Lifecycle(_, lc) => lc.spec_name(),
            FuncKey::UiLifecycle(_, lc) => "ui_"@ + lc.spec_name(),
            FuncKey::Getter(f) => f.field.spec_name() + ".getter"@,
            FuncKey::Setter(f) => f.field.spec_name() + ".setter"@,
        }
    }

    /// The symbol name of the function.
    pub fn name(&self) -> (r: String)
        ensures
            r@ == self.spec_name(),
    {
        let mut s = "maxim.control.".to_owned();
        match self {
            FuncKey::Lifecycle(ct, lc) => {
                s.append(ct.name());
                s.append(".");
                s.append(lc.name());
            },
            FuncKey::UiLifecycle(ct, lc) => {
                s.append(ct.name());
                s.append(".ui_");
                s.append(lc.name());
            },
            FuncKey::Getter(f) => {
                s.append(f.control_type.name());
                s.append(".");
                s.append(f.field.name());
                s.append(".getter");
            },
            FuncKey::Setter(f) => {
                s.append(f.control_type.name());
                s.append(".");
                s.append(f.field.name());
                s.append(".setter");
            },
        }
        s
    }
}

/// `maxim.control.<control>.`: the part of a name fixed by the control type.
pub open spec fn control_prefix(ct: ControlType) -> Seq<char> {
    name_prefix() + ct.spec_name() + "."@
}

/// Every name is the control prefix of its control type followed by its tail.
pub proof fn lemma_name_split(k: FuncKey)
    ensures
        k.spec_name() =~= control_prefix(k.control_type()) + k.name_tail(),
{
    match k {
        FuncKey::Lifecycle(ct, lc) => {},
        FuncKey::UiLifecycle(ct, lc) => {
            assert(".ui_"@ =~= "."@ + "ui_"@) by {
                reveal_strlit(".ui_");
                reveal_strlit(".");
                reveal_strlit("ui_");
            }
        },
        FuncKey::Getter(f) => {},
        FuncKey::Setter(f) => {},
    }
}

/// An index at which the control prefixes of two different control types
/// hold different characters.
proof fn lemma_control_prefix_distinct(a: ControlType, b: ControlType)
    requires
        a != b,
    ensures
        exists|j: int|
            0 <= j < control_prefix(a).len() && 0 <= j < control_prefix(b).len()
                && control_prefix(a)[j] != control_prefix(b)[j],
{
    reveal_strlit("maxim.control.");
    reveal_strlit(".");
    reveal_strlit("audio");
    reveal_strlit("midi");
    reveal_strlit("audio_extract");
    reveal_strlit("midi_extract");
    reveal_strlit("graph");
    reveal_strlit("roll");
    reveal_strlit("scope");
    let pa = control_prefix(a);
    let pb = control_prefix(b);
    let n = name_prefix().len() as int;
    if a.spec_name()[0] != b.spec_name()[0] {
        assert(pa[n] == a.spec_name()[0]);
        assert(pb[n] == b.spec_name()[0]);
    } else if a.spec_name().len() < b.spec_name().len() {
        let m = a.spec_name().len() as int;
        assert(pa[n + m] == '.');
        assert(pb[n + m] == b.spec_name()[m]);
    } else {
        let m = b.spec_name().len() as int;
        assert(pb[n + m] == '.');
        assert(pa[n + m] == a.spec_name()[m]);
    }
}

/// Two keys of one control type with the same tail are the same key.
proof fn lemma_tail_injective(k1: FuncKey, k2: FuncKey)
    requires
        k1.control_type() == k2.control_type(),
        k1.name_tail() == k2.name_tail(),
    ensures
        k1 == k2,
{
    reveal_strlit("construct");
    reveal_strlit("update");
    reveal_strlit("destruct");
    reveal_strlit("ui_");
    reveal_strlit("value");
    reveal_strlit(".getter");
    reveal_strlit(".setter");
    let t1 = k1.name_tail();
    let t2 = k2.name_tail();
    assert(t1.len() == t2.len());
    assert(t1[0] == t2[0]);
    assert(t1[6] == t2[6]);
}

/// Different control functions have different names, so looking a function
/// up by its name finds the function of that key and no other.
pub proof fn lemma_name_injective(k1: FuncKey, k2: FuncKey)
    requires
        k1.spec_name() == k2.spec_name(),
    ensures
        k1 == k2,
{
    lemma_name_split(k1);
    lemma_name_split(k2);
    let c1 = k1.control_type();
    let c2 = k2.control_type();
    if c1 != c2 {
        lemma_control_prefix_distinct(c1, c2);
        let j = choose|j: int|
            0 <= j < control_prefix(c1).len() && 0 <= j < control_prefix(c2).len()
                && control_prefix(c1)[j] != control_prefix(c2)[j];
        assert(k1.spec_name()[j] == control_prefix(c1)[j]);
        assert(k2.spec_name()[j] == control_prefix(c2)[j]);
    } else {
        let p = control_prefix(c1);
        assert(k1.name_tail() =~= k1.spec_name().subrange(p.len() as int, k1.spec_name().len() as int));
        assert(k2.name_tail() =~= k2.spec_name().subrange(p.len() as int, k2.spec_name().len() as int));
        lemma_tail_injective(k1, k2);
    }
}

/// Different control functions have different names.
pub proof fn lemma_names_differ(k1: FuncKey, k2: FuncKey)
    requires
        k1 != k2,
    ensures
        k1.spec_name() != k2.spec_name(),
{
    if k1.spec_name() == k2.spec_name() {
        lemma_name_injective(k1, k2);
    }
}

} // verus!
