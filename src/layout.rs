use vstd::prelude::*;

use crate::node::{MaterialEditorDataType, MaterialEditorNodeTemplate};

verus! {

/// How an input port may receive its value.
#[derive(Clone, Copy, Debug, PartialEq, Eq, Structural)]
pub enum InputParamKind {
    ConnectionOnly,
    ConstantOnly,
    ConnectionOrConstant,
}

/// The value an input port starts with.
#[derive(Clone, Copy, Debug, PartialEq, Eq, Structural)]
pub enum InitialValue {
    I32 { value: i32 },
    /// A two-component float vector at the origin.
    FVec2Zero,
    TextureId(u32),
}

impl Default for InitialValue {
    fn default() -> (r: Self)
        ensures
            r == (InitialValue::I32 { value: 0 }),
    {
        InitialValue::I32 { value: 0 }
    }
}

/// An input port to be added to a new node.
#[derive(Clone, Debug)]
pub struct InputParam {
    pub name: String,
    pub data_type: MaterialEditorDataType,
    pub value: InitialValue,
    pub kind: InputParamKind,
    pub shown_inline: bool,
}

/// An output port to be added to a new node.
#[derive(Clone, Debug)]
pub struct OutputParam {
    pub name: String,
    pub data_type: MaterialEditorDataType,
}

/// The ports of a new node, each list in the order the ports are added.
#[derive(Clone, Debug)]
pub struct NodeLayout {
    pub inputs: Vec<InputParam>,
    pub outputs: Vec<OutputParam>,
}

/// An input port as the contracts see it.
pub struct InputParamView {
    pub name: Seq<char>,
    pub data_type: MaterialEditorDataType,
    pub value: InitialValue,
    pub kind: InputParamKind,
    pub shown_inline: bool,
}

/// An output port as the contracts see it.
pub struct OutputParamView {
    pub name: Seq<char>,
    pub data_type: MaterialEditorDataType,
}

/// A node's ports as the contracts see them.
pub struct NodeLayoutView {
    pub inputs: Seq<InputParamView>,
    pub outputs: Seq<OutputParamView>,
}

impl View for InputParam {
    type V = InputParamView;

    open spec fn view(&self) -> InputParamView {
        InputParamView {
            name: self.name@,
            data_type: self.data_type,
            value: self.value,
            kind: self.kind,
            shown_inline: self.shown_inline,
        }
    }
}

impl View for OutputParam {
    type V = OutputParamView;

    open spec fn view(&self) -> OutputParamView {
        OutputParamView { name: self.name@, data_type: self.data_type }
    }
}

impl View for NodeLayout {
    type V = NodeLayoutView;

    open spec fn view(&self) -> NodeLayoutView {
        NodeLayoutView {
            inputs: self.inputs@.map_values(|p: InputParam| p@),
            outputs: self.outputs@.map_values(|p: OutputParam| p@),
        }
    }
}

/// An input shown inline on the node, which takes a link or a typed-in value.
pub open spec fn linkable_input(
    name: Seq<char>,
    data_type: MaterialEditorDataType,
    value: InitialValue,
) -> InputParamView {
    InputParamView {
        name,
        data_type,
        value,
        kind: InputParamKind::ConnectionOrConstant,
        shown_inline: true,
    }
}

pub open spec fn output(name: Seq<char>, data_type: MaterialEditorDataType) -> OutputParamView {
    OutputParamView { name, data_type }
}

/// The ports that a node made from template `t` gets.
pub open spec fn layout_of(t: MaterialEditorNodeTemplate) -> NodeLayoutView {
    let zero = InitialValue::I32 { value: 0 };
    match t {
        MaterialEditorNodeTemplate::Constant => NodeLayoutView {
            inputs: seq![
                InputParamView {
                    name: "constant"@,
                    data_type: MaterialEditorDataType::Scalar,
                    value: zero,
                    kind: InputParamKind::ConstantOnly,
                    shown_inline: true,
                },
            ],
            outputs: seq![output("output"@, MaterialEditorDataType::Scalar)],
        },
        MaterialEditorNodeTemplate::Add => NodeLayoutView {
            inputs: seq![
                linkable_input("a"@, MaterialEditorDataType::Scalar, zero),
                linkable_input("b"@, MaterialEditorDataType::Scalar, zero),
            ],
            outputs: seq![output("out"@, MaterialEditorDataType::Scalar)],
        },
        MaterialEditorNodeTemplate::TexCoord => NodeLayoutView {
            inputs: seq![],
            outputs: seq![output("uv output"@, MaterialEditorDataType::Vec2)],
        },
        MaterialEditorNodeTemplate::TextureSample => NodeLayoutView {
            inputs: seq![
                linkable_input(
                    "texture id"@,
                    MaterialEditorDataType::Scalar,
                    InitialValue::TextureId(0),
                ),
                linkable_input("coord"@, MaterialEditorDataType::Vec2, InitialValue::FVec2Zero),
            ],
            outputs: seq![output("rgb output"@, MaterialEditorDataType::Vec3)],
        },
        MaterialEditorNodeTemplate::MakeFVec2 => NodeLayoutView {
            inputs: seq![
                linkable_input("x"@, MaterialEditorDataType::Scalar, zero),
                linkable_input("y"@, MaterialEditorDataType::Scalar, zero),
            ],
            outputs: seq![output("xy output"@, MaterialEditorDataType::Vec2)],
        },
    }
}

fn linkable_param(
    name: &str,
    data_type: MaterialEditorDataType,
    value: InitialValue,
) -> (r: InputParam)
    ensures
        r@ == linkable_input(name@, data_type, value),
{
    InputParam {
        name: String::from_str(name),
        data_type,
        value,
        kind: InputParamKind::ConnectionOrConstant,
        shown_inline: true,
    }
}

fn output_param(name: &str, data_type: MaterialEditorDataType) -> (r: OutputParam)
    ensures
        r@ == output(name@, data_type),
{
    OutputParam { name: String::from_str(name), data_type }
}

impl MaterialEditorNodeTemplate {
    /// The input and output ports that a node made from this template is built with.
    pub fn node_layout(&self) -> (r: NodeLayout)
        ensures
            r@ == layout_of(*self),
    {
        let zero = InitialValue::I32 { value: 0 };
        let mut inputs: Vec<InputParam> = Vec::new();
        let mut outputs: Vec<OutputParam> = Vec::new();
        match self {
            MaterialEditorNodeTemplate::Constant => {
                inputs.push(
                    InputParam {
                        name: String::from_str("constant"),
                        data_type: MaterialEditorDataType::Scalar,
                        value: zero,
                        kind: InputParamKind::ConstantOnly,
                        shown_inline: true,
                    },
                );
                outputs.push(output_param("output", MaterialEditorDataType::Scalar));
            },
            MaterialEditorNodeTemplate::Add => {
                inputs.push(linkable_param("a", MaterialEditorDataType::Scalar, zero));
                inputs.push(linkable_param("b", MaterialEditorDataType::Scalar, zero));
                outputs.push(output_param("out", MaterialEditorDataType::Scalar));
            },
            MaterialEditorNodeTemplate::TexCoord => {
                outputs.push(output_param("uv output", MaterialEditorDataType::Vec2));
            },
            MaterialEditorNodeTemplate::TextureSample => {
                inputs.push(
                    linkable_param(
                        "texture id",
                        MaterialEditorDataType::Scalar,
                        InitialValue::TextureId(0),
                    ),
                );
                inputs.push(
                    linkable_param("coord", MaterialEditorDataType::Vec2, InitialValue::FVec2Zero),
                );
                outputs.push(output_param("rgb output", MaterialEditorDataType::Vec3));
            },
            MaterialEditorNodeTemplate::MakeFVec2 => {
                inputs.push(linkable_param("x", MaterialEditorDataType::Scalar, zero));
                inputs.push(linkable_param("y", MaterialEditorDataType::Scalar, zero));
                outputs.push(output_param("xy output", MaterialEditorDataType::Vec2));
            },
        }
        let r = NodeLayout { inputs, outputs };
        assert(r@.inputs =~= layout_of(*self).inputs);
        assert(r@.outputs =~= layout_of(*self).outputs);
        r
    }
}

} // verus!
