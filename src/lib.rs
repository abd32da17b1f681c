//! The node templates of a material graph editor: what each kind of node is
//! called, where the node finder lists it, and which ports it is built with;
//! with the labels and file paths the editor shows and writes.

pub mod editor;
pub mod layout;
pub mod node;
pub mod text;

pub use editor::{
    material_file_path, texture_drop_template, MaterialEditorTabViewer, MATERIALS_DIR,
    TEXTURE_REFERENCE_COUNT,
};
pub use layout::{InitialValue, InputParam, InputParamKind, NodeLayout, OutputParam};
pub use node::{
    AllMyNodeTemplates, MaterialEditorDataType, MaterialEditorGraphState, MaterialEditorNodeData,
    MaterialEditorNodeTemplate, MaterialEditorResponse,
};
pub use text::{decimal_string, texture_id_label, texture_reference_label};
