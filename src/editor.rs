use vstd::prelude::*;

use crate::node::MaterialEditorNodeTemplate;

verus! {

/// The directory holding one saved graph per material.
pub const MATERIALS_DIR: &'static str = "./materials";

/// How many texture references the texture panel lists.
pub const TEXTURE_REFERENCE_COUNT: u32 = 5;

/// Where the graph of material `name` is saved: `name` inside the materials directory.
pub open spec fn material_path(name: Seq<char>) -> Seq<char> {
    "./materials/"@ + name
}

/// The path of the file that holds the graph of the material called `name`.
pub fn material_file_path(name: &str) -> (r: String)
    ensures
        r@ == material_path(name@),
{
    let mut path = String::from_str("./materials/");
    path.append(name);
    path
}

/// The node to add when a texture reference is released: a texture sample,
/// but only where the drag ended and the pointer is over the graph area.
pub fn texture_drop_template(
    drag_stopped: bool,
    over_graph: bool,
) -> (r: Option<MaterialEditorNodeTemplate>)
    ensures
        r == (if drag_stopped && over_graph {
            Some(MaterialEditorNodeTemplate::TextureSample)
        } else {
            None
        }),
{
    if drag_stopped && over_graph {
        Some(MaterialEditorNodeTemplate::TextureSample)
    } else {
        None
    }
}

/// Shows each open material in a tab of the dock area.
#[derive(Clone, Copy, Debug, PartialEq, Eq, Structural)]
pub struct MaterialEditorTabViewer;

impl MaterialEditorTabViewer {
    /// The title of a material's tab: the material's name.
    pub fn title(&self, material_name: &str) -> (r: String)
        ensures
            r@ == material_name@,
    {
        String::from_str(material_name)
    }
}

} // verus!
