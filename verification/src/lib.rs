//! Code generation for the controls of a node: the functions that construct,
//! update and destroy each control and its user interface, the getters and
//! setters of its fields, the calls into them, and the optimisation run over
//! the finished module. The generated code is held as plain values
//! (`ir::IrModule`), from which a backend emits the machine-level module.
pub mod control;
pub mod controls;
pub mod ir;
pub mod names;
pub mod optimize;

pub use control::{ControlField, ControlType, FieldKind, LifecycleFunc, TargetProperties};
pub use controls::{
    build_field_get, build_field_set, build_lifecycle_call, build_ui_lifecycle_call,
    default_copy_getter, default_copy_setter, get_data_type, get_field_getter_func,
    get_field_setter_func, get_field_type, get_group_type, get_ui_type, Control, ControlContext,
    ControlFieldGenerator, ControlFieldGeneratorCb, ControlUiContext,
};
pub use ir::{Builder, CallLabel, Instr, IrModule, StructRef, Value};
pub use names::FuncKey;
pub use optimize::{optimize_module, ModuleFunctionIterator, OptimizationLevel, OptimizationPlan};
