//! The kinds of control a node can carry, the fields that can be read and
//! written on them, and the lifecycle stages for which code is generated.
use vstd::prelude::*;

verus! {

/// The kind of a control.
#[derive(Clone, Copy, Debug, PartialEq, Eq, Structural)]
pub enum ControlType {
    Audio,
    Midi,
    AudioExtract,
    MidiExtract,
    Graph,
    Roll,
    Scope,
}

/// A field of a control that generated code can read or write.
#[derive(Clone, Copy, Debug, PartialEq, Eq, Structural)]
pub enum FieldKind {
    Value,
}

/// One field of one kind of control.
#[derive(Clone, Copy, Debug, PartialEq, Eq, Structural)]
pub struct ControlField {
    pub control_type: ControlType,
    pub field: FieldKind,
}

/// The stage of a control's life that a generated function handles.
#[derive(Clone, Copy, Debug, PartialEq, Eq, Structural)]
pub enum LifecycleFunc {
    Construct,
    Update,
    Destruct,
}

/// What the code is generated for.
#[derive(Clone, Copy, Debug, PartialEq, Eq, Structural)]
pub struct TargetProperties {
    /// Whether the functions that drive a control's user interface are built too.
    pub include_ui: bool,
}

impl TargetProperties {
    pub fn new(include_ui: bool) -> (r: TargetProperties)
        ensures
            r.include_ui == include_ui,
    {
        TargetProperties { include_ui }
    }
}

impl ControlType {
    /// The text by which a control type appears in symbol names.
    pub open spec fn spec_name(self) -> Seq<char> {
        match self {
            ControlType::Audio => "audio"@,
            ControlType::Midi => "midi"@,
            ControlType::AudioExtract => "audio_extract"@,
            ControlType::MidiExtract => "midi_extract"@,
            ControlType::Graph => "graph"@,
            ControlType::Roll => "roll"@,
            ControlType::Scope => "scope"@,
        }
    }

    /// The text by which a control type appears in symbol names.
    pub fn name(&self) -> (r: &'static str)
        ensures
            r@ == self.spec_name(),
    {
        match self {
            ControlType::Audio => "audio",
            ControlType::Midi => "midi",
            ControlType::AudioExtract => "audio_extract",
            ControlType::MidiExtract => "midi_extract",
            ControlType::Graph => "graph",
            ControlType::Roll => "roll",
            ControlType::Scope => "scope",
        }
    }
}

impl FieldKind {
    /// The text by which a field appears in symbol names.
    pub open spec fn spec_name(self) -> Seq<char> {
        match self {
            FieldKind::Value => "value"@,
        }
    }

    /// The text by which a field appears in symbol names.
    pub fn name(&self) -> (r: &'static str)
        ensures
            r@ == self.spec_name(),
    {
        match self {
            FieldKind::Value => "value",
        }
    }
}

impl LifecycleFunc {
    /// The text by which a lifecycle stage appears in symbol names.
    pub open spec fn spec_name(self) -> Seq<char> {
        match self {
            LifecycleFunc::Construct => "construct"@,
            LifecycleFunc::Update => "update"@,
            LifecycleFunc::Destruct => "destruct"@,
        }
    }

    /// The text by which a lifecycle stage appears in symbol names.
    pub fn name(&self) -> (r: &'static str)
        ensures
            r@ == self.spec_name(),
    {
        match self {
            LifecycleFunc::Construct => "construct",
            LifecycleFunc::Update => "update",
            LifecycleFunc::Destruct => "destruct",
        }
    }
}

impl ControlField {
    /// The text by which a field appears in symbol names: the control type's
    /// name, a dot, then the field's name.
    pub open spec fn spec_name(self) -> Seq<char> {
        self.control_type.spec_name() + "."@ + self.field.spec_name()
    }
}

} // verus!
