use vstd::prelude::*;

verus! {

/// The data type carried by a node's input or output port.
#[derive(Clone, Copy, Debug, PartialEq, Eq, Structural)]
pub enum MaterialEditorDataType {
    Scalar,
    Vec2,
    Vec3,
}

/// The kinds of node a material graph is built from.
#[derive(Clone, Copy, Debug, PartialEq, Eq, Structural)]
pub enum MaterialEditorNodeTemplate {
    Constant,
    Add,
    TexCoord,
    TextureSample,
    MakeFVec2,
}

/// What each node of a graph carries besides its ports: the template it was made from.
#[derive(Clone, Copy, Debug, PartialEq, Eq, Structural)]
pub struct MaterialEditorNodeData {
    pub template: MaterialEditorNodeTemplate,
}

/// Per-editor state shared by the node callbacks. It holds nothing yet.
#[derive(Clone, Copy, Debug, PartialEq, Eq, Structural)]
pub struct MaterialEditorGraphState {}

/// The response a node raises from its widgets. No node raises one, so it carries nothing.
#[derive(Clone, Copy, Debug, PartialEq, Eq, Structural)]
pub struct MaterialEditorResponse;

/// The source of every template offered by the node finder.
#[derive(Clone, Copy, Debug, PartialEq, Eq, Structural)]
pub struct AllMyNodeTemplates;

/// Display name of a data type.
pub open spec fn data_type_name(t: MaterialEditorDataType) -> Seq<char> {
    match t {
        MaterialEditorDataType::Scalar => "scalar"@,
        MaterialEditorDataType::Vec2 => "Vec2"@,
        MaterialEditorDataType::Vec3 => "Vec3"@,
    }
}

/// The label under which a template is listed in the node finder and shown on its node.
pub open spec fn template_label(t: MaterialEditorNodeTemplate) -> Seq<char> {
    match t {
        MaterialEditorNodeTemplate::Constant => "constant"@,
        MaterialEditorNodeTemplate::Add => "add"@,
        MaterialEditorNodeTemplate::TexCoord => "texcoord"@,
        MaterialEditorNodeTemplate::TextureSample => "texture sample"@,
        MaterialEditorNodeTemplate::MakeFVec2 => "make fvec2"@,
    }
}

/// The one node finder category a template belongs to.
pub open spec fn template_category(t: MaterialEditorNodeTemplate) -> Seq<char> {
    match t {
        MaterialEditorNodeTemplate::TexCoord | MaterialEditorNodeTemplate::TextureSample => "Texture"@,
        _ => "Math"@,
    }
}

/// Every template, in the order the node finder lists them.
pub open spec fn all_templates() -> Seq<MaterialEditorNodeTemplate> {
    seq![
        MaterialEditorNodeTemplate::Constant,
        MaterialEditorNodeTemplate::Add,
        MaterialEditorNodeTemplate::TexCoord,
        MaterialEditorNodeTemplate::TextureSample,
        MaterialEditorNodeTemplate::MakeFVec2,
    ]
}

impl MaterialEditorDataType {
    /// Red, green and blue of the colour in which ports of this type are drawn.
    pub fn data_type_color(&self) -> (r: (u8, u8, u8))
        ensures
            r == (222u8, 222u8, 222u8),
    {
        (222, 222, 222)
    }

    pub fn name(&self) -> (r: &'static str)
        ensures
            r@ == data_type_name(*self),
    {
        match self {
            MaterialEditorDataType::Scalar => "scalar",
            MaterialEditorDataType::Vec2 => "Vec2",
            MaterialEditorDataType::Vec3 => "Vec3",
        }
    }
}

impl MaterialEditorNodeTemplate {
    pub fn node_finder_label(&self) -> (r: &'static str)
        ensures
            r@ == template_label(*self),
    {
        match self {
            MaterialEditorNodeTemplate::Constant => "constant",
            MaterialEditorNodeTemplate::Add => "add",
            MaterialEditorNodeTemplate::TexCoord => "texcoord",
            MaterialEditorNodeTemplate::TextureSample => "texture sample",
            MaterialEditorNodeTemplate::MakeFVec2 => "make fvec2",
        }
    }

    pub fn node_finder_categories(&self) -> (r: Vec<&'static str>)
        ensures
            r@.len() == 1,
            r@[0]@ == template_category(*self),
    {
        match self {
            MaterialEditorNodeTemplate::TexCoord | MaterialEditorNodeTemplate::TextureSample => {
                vec!["Texture"]
            },
            _ => vec!["Math"],
        }
    }

    /// The title shown on a node made from this template: its finder label.
    pub fn node_graph_label(&self) -> (r: String)
        ensures
            r@ == template_label(*self),
    {
        String::from_str(self.node_finder_label())
    }

    /// The data a new node made from this template carries.
    pub fn user_data(&self) -> (r: MaterialEditorNodeData)
        ensures
            r.template == *self,
    {
        MaterialEditorNodeData { template: *self }
    }
}

impl MaterialEditorNodeData {
    pub fn template(&self) -> (r: MaterialEditorNodeTemplate)
        ensures
            r == self.template,
    {
        self.template
    }
}

impl Default for MaterialEditorGraphState {
    fn default() -> (r: Self)
        ensures
            r == (MaterialEditorGraphState {}),
    {
        MaterialEditorGraphState {}
    }
}

impl AllMyNodeTemplates {
    /// Every template once, in finder order.
    pub fn all_kinds(&self) -> (r: Vec<MaterialEditorNodeTemplate>)
        ensures
            r@ == all_templates(),
            r@.no_duplicates(),
            forall|t: MaterialEditorNodeTemplate| r@.contains(t),
    {
        let r = vec![
            MaterialEditorNodeTemplate::Constant,
            MaterialEditorNodeTemplate::Add,
            MaterialEditorNodeTemplate::TexCoord,
            MaterialEditorNodeTemplate::TextureSample,
            MaterialEditorNodeTemplate::MakeFVec2,
        ];
        assert(r@ =~= all_templates());
        assert forall|t: MaterialEditorNodeTemplate| r@.contains(t) by {
            let i: int = match t {
                MaterialEditorNodeTemplate::Constant => 0,
                MaterialEditorNodeTemplate::Add => 1,
                MaterialEditorNodeTemplate::TexCoord => 2,
                MaterialEditorNodeTemplate::TextureSample => 3,
                MaterialEditorNodeTemplate::MakeFVec2 => 4,
            };
            assert(r@[i] == t);
        }
        r
    }
}

} // verus!
