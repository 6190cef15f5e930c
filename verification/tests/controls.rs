use maxim_controls::{
    build_field_get, build_field_set, build_lifecycle_call, build_ui_lifecycle_call,
    default_copy_getter, default_copy_setter, get_data_type, get_field_getter_func,
    get_field_setter_func, get_field_type, get_group_type, get_ui_type, optimize_module, Builder,
    CallLabel, Control, ControlContext, ControlField, ControlFieldGenerator,
    ControlFieldGeneratorCb, ControlType, ControlUiContext, FieldKind, FuncKey, Instr, IrModule,
    LifecycleFunc, ModuleFunctionIterator, OptimizationLevel, StructRef, TargetProperties, Value,
};

const ALL_TYPES: [ControlType; 7] = [
    ControlType::Audio,
    ControlType::Midi,
    ControlType::AudioExtract,
    ControlType::MidiExtract,
    ControlType::Graph,
    ControlType::Roll,
    ControlType::Scope,
];

const ALL_STAGES: [LifecycleFunc; 3] =
    [LifecycleFunc::Construct, LifecycleFunc::Update, LifecycleFunc::Destruct];

fn value_field(control_type: ControlType) -> ControlField {
    ControlField { control_type, field: FieldKind::Value }
}

fn names_of(module: &IrModule) -> Vec<String> {
    (0..module.len()).map(|i| module.name(i).clone()).collect()
}

#[test]
fn lifecycle_names() {
    assert_eq!(
        FuncKey::Lifecycle(ControlType::Audio, LifecycleFunc::Construct).name(),
        "maxim.control.audio.construct"
    );
    assert_eq!(
        FuncKey::Lifecycle(ControlType::MidiExtract, LifecycleFunc::Destruct).name(),
        "maxim.control.midi_extract.destruct"
    );
    assert_eq!(
        FuncKey::UiLifecycle(ControlType::Graph, LifecycleFunc::Update).name(),
        "maxim.control.graph.ui_update"
    );
}

#[test]
fn field_names() {
    assert_eq!(
        FuncKey::Getter(value_field(ControlType::Roll)).name(),
        "maxim.control.roll.value.getter"
    );
    assert_eq!(
        FuncKey::Setter(value_field(ControlType::AudioExtract)).name(),
        "maxim.control.audio_extract.value.setter"
    );
}

#[test]
fn all_names_distinct() {
    let mut names: Vec<String> = Vec::new();
    for ct in ALL_TYPES {
        for lc in ALL_STAGES {
            names.push(FuncKey::Lifecycle(ct, lc).name());
            names.push(FuncKey::UiLifecycle(ct, lc).name());
        }
        names.push(FuncKey::Getter(value_field(ct)).name());
        names.push(FuncKey::Setter(value_field(ct)).name());
    }
    assert_eq!(names.len(), 56);
    for i in 0..names.len() {
        for j in 0..names.len() {
            if i != j {
                assert_ne!(names[i], names[j]);
            }
        }
    }
}

#[test]
fn type_references() {
    assert_eq!(get_group_type(ControlType::Midi), StructRef::Group(ControlType::Midi));
    assert_eq!(get_data_type(ControlType::Scope), StructRef::Data(ControlType::Scope));
    let f = value_field(ControlType::Audio);
    assert_eq!(get_field_type(f), StructRef::Field(f));
}

#[test]
fn ui_type_of_each_control() {
    assert_eq!(get_ui_type(ControlType::Audio), StructRef::Ui(ControlType::Audio));
    assert_eq!(get_ui_type(ControlType::Midi), StructRef::Ui(ControlType::Midi));
    assert_eq!(get_ui_type(ControlType::AudioExtract), StructRef::Ui(ControlType::AudioExtract));
    assert_eq!(get_ui_type(ControlType::MidiExtract), StructRef::Ui(ControlType::MidiExtract));
    assert_eq!(get_ui_type(ControlType::Graph), StructRef::Data(ControlType::Graph));
    assert_eq!(get_ui_type(ControlType::Roll), StructRef::Data(ControlType::Roll));
    assert_eq!(get_ui_type(ControlType::Scope), StructRef::Data(ControlType::Scope));
}

#[test]
fn getter_declared_once() {
    let mut module = IrModule::new();
    let f = value_field(ControlType::Graph);
    let getter = get_field_getter_func(&mut module, f);
    assert_eq!(getter, 0);
    assert_eq!(module.len(), 1);
    assert_eq!(module.name(0), "maxim.control.graph.value.getter");
    assert_eq!(
        module.params(0),
        &vec![
            StructRef::Group(ControlType::Graph),
            StructRef::Data(ControlType::Graph),
            StructRef::Field(f)
        ]
    );
    assert!(module.body(0).is_none());
    let again = get_field_getter_func(&mut module, f);
    assert_eq!(again, 0);
    assert_eq!(module.len(), 1);
}

#[test]
fn getter_and_setter_are_different_functions() {
    let mut module = IrModule::new();
    let f = value_field(ControlType::Midi);
    let getter = get_field_getter_func(&mut module, f);
    let setter = get_field_setter_func(&mut module, f);
    assert_eq!(getter, 0);
    assert_eq!(setter, 1);
    assert_eq!(module.name(1), "maxim.control.midi.value.setter");
    assert_eq!(module.params(1), module.params(0));
    assert_eq!(get_field_setter_func(&mut module, f), 1);
    assert_eq!(module.len(), 2);
}

#[test]
fn get_function_by_name() {
    let mut module = IrModule::new();
    get_field_getter_func(&mut module, value_field(ControlType::Audio));
    get_field_setter_func(&mut module, value_field(ControlType::Audio));
    assert_eq!(module.get_function("maxim.control.audio.value.setter"), Some(1));
    assert_eq!(module.get_function("maxim.control.audio.value.getter"), Some(0));
    assert_eq!(module.get_function("maxim.control.midi.value.getter"), None);
}

#[test]
fn get_or_create_keeps_existing_signature() {
    let mut module = IrModule::new();
    let first = module.get_or_create_func("maxim.control.audio.update", vec![StructRef::Empty]);
    assert_eq!(first, 0);
    let mut b = Builder::new();
    build_lifecycle_call(
        &mut module,
        &mut b,
        ControlType::Audio,
        LifecycleFunc::Update,
        Value::Param(0),
        Value::Param(1),
    );
    assert_eq!(module.len(), 1);
    assert_eq!(module.params(0), &vec![StructRef::Empty]);
}

#[test]
fn field_get_call() {
    let mut module = IrModule::new();
    let mut b = Builder::new();
    let f = value_field(ControlType::Roll);
    build_field_get(&mut module, &mut b, f, Value::Local(1), Value::Local(2), Value::Local(3));
    assert_eq!(module.len(), 1);
    assert_eq!(module.name(0), "maxim.control.roll.value.getter");
    assert_eq!(
        b.instrs(),
        &vec![Instr::Call {
            callee: 0,
            args: vec![Value::Local(1), Value::Local(2), Value::Local(3)],
            label: CallLabel::FieldGet,
        }]
    );
    assert_eq!(CallLabel::FieldGet.text(), "field.get");
}

#[test]
fn field_set_call() {
    let mut module = IrModule::new();
    let mut b = Builder::new();
    let f = value_field(ControlType::Roll);
    build_field_get(&mut module, &mut b, f, Value::Local(1), Value::Local(2), Value::Local(3));
    build_field_set(&mut module, &mut b, f, Value::Local(1), Value::Local(2), Value::Local(4));
    assert_eq!(module.len(), 2);
    assert_eq!(module.name(1), "maxim.control.roll.value.setter");
    assert_eq!(b.instrs().len(), 2);
    assert_eq!(
        b.instrs()[1],
        Instr::Call {
            callee: 1,
            args: vec![Value::Local(1), Value::Local(2), Value::Local(4)],
            label: CallLabel::FieldSet,
        }
    );
    assert_eq!(CallLabel::FieldSet.text(), "field.set");
}

#[test]
fn lifecycle_calls() {
    let mut module = IrModule::new();
    let mut b = Builder::new();
    build_lifecycle_call(
        &mut module,
        &mut b,
        ControlType::Scope,
        LifecycleFunc::Construct,
        Value::Param(0),
        Value::Param(1),
    );
    build_ui_lifecycle_call(
        &mut module,
        &mut b,
        ControlType::Scope,
        LifecycleFunc::Construct,
        Value::Param(0),
        Value::Param(1),
        Value::Param(2),
    );
    assert_eq!(module.name(0), "maxim.control.scope.construct");
    assert_eq!(
        module.params(0),
        &vec![StructRef::Group(ControlType::Scope), StructRef::Data(ControlType::Scope)]
    );
    assert_eq!(module.name(1), "maxim.control.scope.ui_construct");
    assert_eq!(
        module.params(1),
        &vec![
            StructRef::Group(ControlType::Scope),
            StructRef::Data(ControlType::Scope),
            StructRef::Data(ControlType::Scope)
        ]
    );
    assert_eq!(
        b.instrs(),
        &vec![
            Instr::Call {
                callee: 0,
                args: vec![Value::Param(0), Value::Param(1)],
                label: CallLabel::Unnamed,
            },
            Instr::Call {
                callee: 1,
                args: vec![Value::Param(0), Value::Param(1), Value::Param(2)],
                label: CallLabel::Unnamed,
            },
        ]
    );
    assert_eq!(CallLabel::Unnamed.text(), "");
}

#[test]
fn audio_ui_lifecycle_takes_ui_state() {
    let mut module = IrModule::new();
    let mut b = Builder::new();
    build_ui_lifecycle_call(
        &mut module,
        &mut b,
        ControlType::Audio,
        LifecycleFunc::Update,
        Value::Param(0),
        Value::Param(1),
        Value::Param(2),
    );
    assert_eq!(module.params(0)[2], StructRef::Ui(ControlType::Audio));
}

#[test]
fn copy_getter_and_setter() {
    let mut context = ControlContext::entry();
    default_copy_getter(&mut context, Value::Param(2));
    default_copy_setter(&mut context, Value::Local(7));
    assert_eq!(context.val_ptr, Value::Param(0));
    assert_eq!(context.data_ptr, Value::Param(1));
    assert_eq!(
        context.b.instrs(),
        &vec![
            Instr::CopyPtr { src: Value::Param(0), dst: Value::Param(2) },
            Instr::CopyPtr { src: Value::Local(7), dst: Value::Param(0) },
        ]
    );
}

#[test]
fn ui_context_entry() {
    let context = ControlUiContext::entry();
    assert_eq!(context.val_ptr, Value::Param(0));
    assert_eq!(context.data_ptr, Value::Param(1));
    assert_eq!(context.ui_ptr, Value::Param(2));
    assert!(context.b.instrs().is_empty());
}

struct AudioControl;

impl Control for AudioControl {
    fn spec_control_type() -> ControlType {
        ControlType::Audio
    }

    fn control_type() -> ControlType {
        ControlType::Audio
    }

    fn gen_update(control: &mut ControlContext) {
        let src = control.data_ptr;
        let dst = control.val_ptr;
        control.b.build_copy_ptr(src, dst);
    }

    fn gen_construct(_control: &mut ControlContext) {}

    fn gen_destruct(_control: &mut ControlContext) {}

    fn gen_ui_construct(_control: &mut ControlUiContext) {}

    fn gen_ui_update(_control: &mut ControlUiContext) {}

    fn gen_ui_destruct(_control: &mut ControlUiContext) {}

    fn gen_fields<G: ControlFieldGenerator>(generator: &mut G) {
        generator.generate(
            value_field(ControlType::Audio),
            ControlFieldGeneratorCb::DefaultCopyGetter,
            ControlFieldGeneratorCb::DefaultCopySetter,
        );
    }
}

struct ScopeControl;

impl Control for ScopeControl {
    fn spec_control_type() -> ControlType {
        ControlType::Scope
    }

    fn control_type() -> ControlType {
        ControlType::Scope
    }

    fn gen_construct(_control: &mut ControlContext) {}

    fn gen_update(_control: &mut ControlContext) {}

    fn gen_destruct(_control: &mut ControlContext) {}

    fn gen_ui_construct(control: &mut ControlUiContext) {
        let src = control.data_ptr;
        let dst = control.ui_ptr;
        control.b.build_copy_ptr(src, dst);
    }

    fn gen_ui_update(_control: &mut ControlUiContext) {}

    fn gen_ui_destruct(_control: &mut ControlUiContext) {}

    fn gen_fields<G: ControlFieldGenerator>(generator: &mut G) {
        generator.generate(
            value_field(ControlType::Scope),
            ControlFieldGeneratorCb::Code(vec![Instr::CopyPtr {
                src: Value::Param(1),
                dst: Value::Param(2),
            }]),
            ControlFieldGeneratorCb::DefaultCopySetter,
        );
    }
}

struct RollControl;

impl Control for RollControl {
    fn spec_control_type() -> ControlType {
        ControlType::Roll
    }

    fn control_type() -> ControlType {
        ControlType::Roll
    }

    fn gen_construct(_control: &mut ControlContext) {}

    fn gen_update(_control: &mut ControlContext) {}

    fn gen_destruct(_control: &mut ControlContext) {}

    fn gen_ui_construct(_control: &mut ControlUiContext) {}

    fn gen_ui_update(_control: &mut ControlUiContext) {}

    fn gen_ui_destruct(_control: &mut ControlUiContext) {}

    fn gen_fields<G: ControlFieldGenerator>(_generator: &mut G) {}
}

#[test]
fn build_funcs_with_ui() {
    let mut module = IrModule::new();
    AudioControl::build_funcs(&mut module, &TargetProperties::new(true));
    assert_eq!(
        names_of(&module),
        vec![
            "maxim.control.audio.construct",
            "maxim.control.audio.update",
            "maxim.control.audio.destruct",
            "maxim.control.audio.value.getter",
            "maxim.control.audio.value.setter",
            "maxim.control.audio.ui_construct",
            "maxim.control.audio.ui_update",
            "maxim.control.audio.ui_destruct",
        ]
    );
    assert_eq!(module.body(0), &Some(vec![Instr::RetVoid]));
    assert_eq!(
        module.body(1),
        &Some(vec![
            Instr::CopyPtr { src: Value::Param(1), dst: Value::Param(0) },
            Instr::RetVoid
        ])
    );
    assert_eq!(
        module.body(3),
        &Some(vec![
            Instr::CopyPtr { src: Value::Param(0), dst: Value::Param(2) },
            Instr::RetVoid
        ])
    );
    assert_eq!(
        module.body(4),
        &Some(vec![
            Instr::CopyPtr { src: Value::Param(2), dst: Value::Param(0) },
            Instr::RetVoid
        ])
    );
    for i in 5..8 {
        assert_eq!(module.body(i), &Some(vec![Instr::RetVoid]));
        assert_eq!(module.params(i)[2], StructRef::Ui(ControlType::Audio));
    }
}

#[test]
fn build_funcs_without_ui() {
    let mut module = IrModule::new();
    AudioControl::build_funcs(&mut module, &TargetProperties::new(false));
    assert_eq!(module.len(), 5);
    for lc in ALL_STAGES {
        assert_eq!(module.get_function(&FuncKey::UiLifecycle(ControlType::Audio, lc).name()), None);
    }
}

#[test]
fn build_funcs_keeps_other_controls() {
    let mut module = IrModule::new();
    AudioControl::build_funcs(&mut module, &TargetProperties::new(false));
    RollControl::build_funcs(&mut module, &TargetProperties::new(true));
    assert_eq!(module.len(), 11);
    assert_eq!(module.name(0), "maxim.control.audio.construct");
    assert_eq!(module.name(5), "maxim.control.roll.construct");
    assert_eq!(module.name(8), "maxim.control.roll.ui_construct");
    assert_eq!(module.params(8)[2], StructRef::Data(ControlType::Roll));
    assert_eq!(
        module.body(1),
        &Some(vec![
            Instr::CopyPtr { src: Value::Param(1), dst: Value::Param(0) },
            Instr::RetVoid
        ])
    );
}

#[test]
fn building_twice_adds_nothing() {
    let mut module = IrModule::new();
    AudioControl::build_funcs(&mut module, &TargetProperties::new(true));
    let before = names_of(&module);
    AudioControl::build_funcs(&mut module, &TargetProperties::new(true));
    assert_eq!(names_of(&module), before);
}

#[test]
fn default_layouts_are_empty() {
    assert_eq!(AudioControl::data_type(), StructRef::Empty);
    assert_eq!(RollControl::ui_type(), StructRef::Empty);
}

#[test]
fn iterator_walks_in_order() {
    let mut module = IrModule::new();
    RollControl::build_lifecycle_funcs(&mut module);
    let mut it = ModuleFunctionIterator::new(&module);
    assert_eq!(it.next(), Some(0));
    assert_eq!(it.next(), Some(1));
    assert_eq!(it.next(), Some(2));
    assert_eq!(it.next(), None);
    assert_eq!(it.next(), None);
}

#[test]
fn iterator_on_empty_module() {
    let module = IrModule::new();
    let mut it = ModuleFunctionIterator::new(&module);
    assert_eq!(it.next(), None);
}

#[test]
fn optimisation_plan() {
    let mut module = IrModule::new();
    AudioControl::build_funcs(&mut module, &TargetProperties::new(false));
    let plan = optimize_module(&module);
    assert_eq!(plan.optimization_level, OptimizationLevel::Aggressive);
    assert_eq!(plan.size_level, 0);
    assert_eq!(plan.inliner_threshold, 250);
    assert_eq!(plan.function_order, vec![0, 1, 2, 3, 4]);
}

#[test]
fn optimisation_plan_of_empty_module() {
    let plan = optimize_module(&IrModule::new());
    assert!(plan.function_order.is_empty());
}

#[test]
fn custom_field_code() {
    let mut module = IrModule::new();
    ScopeControl::build_field_funcs(&mut module);
    assert_eq!(module.len(), 2);
    assert_eq!(module.name(0), "maxim.control.scope.value.getter");
    assert_eq!(
        module.body(0),
        &Some(vec![
            Instr::CopyPtr { src: Value::Param(1), dst: Value::Param(2) },
            Instr::RetVoid
        ])
    );
    assert_eq!(
        module.body(1),
        &Some(vec![
            Instr::CopyPtr { src: Value::Param(2), dst: Value::Param(0) },
            Instr::RetVoid
        ])
    );
}

#[test]
fn ui_code_from_generator() {
    let mut module = IrModule::new();
    ScopeControl::build_ui_lifecycle_funcs(&mut module);
    assert_eq!(module.len(), 3);
    assert_eq!(module.name(0), "maxim.control.scope.ui_construct");
    assert_eq!(
        module.body(0),
        &Some(vec![
            Instr::CopyPtr { src: Value::Param(1), dst: Value::Param(2) },
            Instr::RetVoid
        ])
    );
    assert_eq!(module.body(1), &Some(vec![Instr::RetVoid]));
}

#[test]
fn builder_append() {
    let mut b = Builder::new();
    b.build_return();
    b.append(vec![Instr::CopyPtr { src: Value::Local(0), dst: Value::Local(1) }]);
    assert_eq!(
        b.instrs(),
        &vec![Instr::RetVoid, Instr::CopyPtr { src: Value::Local(0), dst: Value::Local(1) }]
    );
}
