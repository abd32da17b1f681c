use material_editor::{
    AllMyNodeTemplates, InitialValue, InputParamKind, MaterialEditorDataType,
    MaterialEditorGraphState, MaterialEditorNodeTemplate, MaterialEditorTabViewer,
};

#[test]
fn data_type_names() {
    assert_eq!(MaterialEditorDataType::Scalar.name(), "scalar");
    assert_eq!(MaterialEditorDataType::Vec2.name(), "Vec2");
    assert_eq!(MaterialEditorDataType::Vec3.name(), "Vec3");
}

#[test]
fn data_type_color_is_light_grey() {
    assert_eq!(MaterialEditorDataType::Vec3.data_type_color(), (222, 222, 222));
}

#[test]
fn finder_labels() {
    assert_eq!(MaterialEditorNodeTemplate::Constant.node_finder_label(), "constant");
    assert_eq!(MaterialEditorNodeTemplate::Add.node_finder_label(), "add");
    assert_eq!(MaterialEditorNodeTemplate::TexCoord.node_finder_label(), "texcoord");
    assert_eq!(MaterialEditorNodeTemplate::TextureSample.node_finder_label(), "texture sample");
    assert_eq!(MaterialEditorNodeTemplate::MakeFVec2.node_finder_label(), "make fvec2");
}

#[test]
fn graph_label_is_finder_label() {
    for t in AllMyNodeTemplates.all_kinds() {
        assert_eq!(t.node_graph_label(), t.node_finder_label().to_string());
    }
    assert_eq!(MaterialEditorNodeTemplate::MakeFVec2.node_graph_label(), "make fvec2");
}

#[test]
fn finder_categories() {
    assert_eq!(MaterialEditorNodeTemplate::TexCoord.node_finder_categories(), vec!["Texture"]);
    assert_eq!(MaterialEditorNodeTemplate::TextureSample.node_finder_categories(), vec!["Texture"]);
    assert_eq!(MaterialEditorNodeTemplate::Constant.node_finder_categories(), vec!["Math"]);
    assert_eq!(MaterialEditorNodeTemplate::Add.node_finder_categories(), vec!["Math"]);
    assert_eq!(MaterialEditorNodeTemplate::MakeFVec2.node_finder_categories(), vec!["Math"]);
}

#[test]
fn user_data_records_template() {
    let data = MaterialEditorNodeTemplate::Add.user_data();
    assert_eq!(data.template, MaterialEditorNodeTemplate::Add);
    assert_eq!(data.template(), MaterialEditorNodeTemplate::Add);
}

#[test]
fn all_kinds_lists_every_template_once() {
    let kinds = AllMyNodeTemplates.all_kinds();
    assert_eq!(
        kinds,
        vec![
            MaterialEditorNodeTemplate::Constant,
            MaterialEditorNodeTemplate::Add,
            MaterialEditorNodeTemplate::TexCoord,
            MaterialEditorNodeTemplate::TextureSample,
            MaterialEditorNodeTemplate::MakeFVec2,
        ]
    );
}

#[test]
fn constant_layout() {
    let l = MaterialEditorNodeTemplate::Constant.node_layout();
    assert_eq!(l.inputs.len(), 1);
    assert_eq!(l.inputs[0].name, "constant");
    assert_eq!(l.inputs[0].data_type, MaterialEditorDataType::Scalar);
    assert_eq!(l.inputs[0].value, InitialValue::I32 { value: 0 });
    assert_eq!(l.inputs[0].kind, InputParamKind::ConstantOnly);
    assert!(l.inputs[0].shown_inline);
    assert_eq!(l.outputs.len(), 1);
    assert_eq!(l.outputs[0].name, "output");
    assert_eq!(l.outputs[0].data_type, MaterialEditorDataType::Scalar);
}

#[test]
fn add_layout() {
    let l = MaterialEditorNodeTemplate::Add.node_layout();
    let names: Vec<&str> = l.inputs.iter().map(|p| p.name.as_str()).collect();
    assert_eq!(names, vec!["a", "b"]);
    for p in &l.inputs {
        assert_eq!(p.data_type, MaterialEditorDataType::Scalar);
        assert_eq!(p.value, InitialValue::I32 { value: 0 });
        assert_eq!(p.kind, InputParamKind::ConnectionOrConstant);
        assert!(p.shown_inline);
    }
    assert_eq!(l.outputs.len(), 1);
    assert_eq!(l.outputs[0].name, "out");
    assert_eq!(l.outputs[0].data_type, MaterialEditorDataType::Scalar);
}

#[test]
fn texcoord_layout_has_no_inputs() {
    let l = MaterialEditorNodeTemplate::TexCoord.node_layout();
    assert!(l.inputs.is_empty());
    assert_eq!(l.outputs.len(), 1);
    assert_eq!(l.outputs[0].name, "uv output");
    assert_eq!(l.outputs[0].data_type, MaterialEditorDataType::Vec2);
}

#[test]
fn texture_sample_layout() {
    let l = MaterialEditorNodeTemplate::TextureSample.node_layout();
    assert_eq!(l.inputs.len(), 2);
    assert_eq!(l.inputs[0].name, "texture id");
    assert_eq!(l.inputs[0].data_type, MaterialEditorDataType::Scalar);
    assert_eq!(l.inputs[0].value, InitialValue::TextureId(0));
    assert_eq!(l.inputs[0].kind, InputParamKind::ConnectionOrConstant);
    assert_eq!(l.inputs[1].name, "coord");
    assert_eq!(l.inputs[1].data_type, MaterialEditorDataType::Vec2);
    assert_eq!(l.inputs[1].value, InitialValue::FVec2Zero);
    assert_eq!(l.inputs[1].kind, InputParamKind::ConnectionOrConstant);
    assert_eq!(l.outputs.len(), 1);
    assert_eq!(l.outputs[0].name, "rgb output");
    assert_eq!(l.outputs[0].data_type, MaterialEditorDataType::Vec3);
}

#[test]
fn make_fvec2_layout() {
    let l = MaterialEditorNodeTemplate::MakeFVec2.node_layout();
    let names: Vec<&str> = l.inputs.iter().map(|p| p.name.as_str()).collect();
    assert_eq!(names, vec!["x", "y"]);
    for p in &l.inputs {
        assert_eq!(p.data_type, MaterialEditorDataType::Scalar);
        assert_eq!(p.value, InitialValue::I32 { value: 0 });
        assert_eq!(p.kind, InputParamKind::ConnectionOrConstant);
    }
    assert_eq!(l.outputs.len(), 1);
    assert_eq!(l.outputs[0].name, "xy output");
    assert_eq!(l.outputs[0].data_type, MaterialEditorDataType::Vec2);
}

#[test]
fn default_initial_value_is_zero() {
    assert_eq!(InitialValue::default(), InitialValue::I32 { value: 0 });
}

#[test]
fn graph_state_default() {
    assert_eq!(MaterialEditorGraphState::default(), MaterialEditorGraphState {});
}

#[test]
fn tab_title_is_material_name() {
    assert_eq!(MaterialEditorTabViewer.title("brick.json"), "brick.json");
    assert_eq!(MaterialEditorTabViewer.title(""), "");
}
