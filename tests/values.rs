use node_graph_eval::{
    AllMyNodeTemplates, DataFrame, EvalError, MyDataType, MyGraphState, MyNodeTemplate,
    MyResponse, MyValueType, Num, Series, Vec2,
};

fn samples() -> Vec<MyValueType> {
    vec![
        MyValueType::Vec2 { value: Vec2::new(Num::from_bits(1), Num::from_bits(2)) },
        MyValueType::Scalar { value: Num::from_bits(3) },
        MyValueType::String { value: "t".to_string() },
        MyValueType::Series { value: Series::empty() },
        MyValueType::DataFrame { value: DataFrame::empty() },
    ]
}

fn is_mismatch(e: EvalError, expected: MyDataType, actual: MyDataType) -> bool {
    matches!(e, EvalError::TypeMismatch { expected: x, actual: a } if x == expected && a == actual)
}

#[test]
fn try_vec2_on_scalar_fails() {
    let v = MyValueType::Scalar { value: Num::from_bits(2.0f64.to_bits()) };
    assert!(is_mismatch(v.try_to_vec2().unwrap_err(), MyDataType::Vec2, MyDataType::Scalar));
}

#[test]
fn every_wrong_accessor_fails() {
    for v in samples() {
        let tag = v.data_type();
        let r = v.clone_value().try_to_vec2();
        assert_eq!(r.is_ok(), tag == MyDataType::Vec2);
        if let Err(e) = r {
            assert!(is_mismatch(e, MyDataType::Vec2, tag));
        }
        let r = v.clone_value().try_to_scalar();
        assert_eq!(r.is_ok(), tag == MyDataType::Scalar);
        if let Err(e) = r {
            assert!(is_mismatch(e, MyDataType::Scalar, tag));
        }
        let r = v.clone_value().try_to_string();
        assert_eq!(r.is_ok(), tag == MyDataType::String);
        if let Err(e) = r {
            assert!(is_mismatch(e, MyDataType::String, tag));
        }
        let r = v.clone_value().try_to_series();
        assert_eq!(r.is_ok(), tag == MyDataType::Series);
        if let Err(e) = r {
            assert!(is_mismatch(e, MyDataType::Series, tag));
        }
        let r = v.try_to_dataframe();
        assert_eq!(r.is_ok(), tag == MyDataType::DataFrame);
        if let Err(e) = r {
            assert!(is_mismatch(e, MyDataType::DataFrame, tag));
        }
    }
}

#[test]
fn accessors_return_contents() {
    let v = MyValueType::String { value: "abc".to_string() };
    assert_eq!(v.try_to_string().unwrap(), "abc");
    let v = MyValueType::Vec2 { value: Vec2::new(Num::from_bits(7), Num::from_bits(9)) };
    let x = v.try_to_vec2().unwrap();
    assert_eq!((x.x.to_bits(), x.y.to_bits()), (7, 9));
    assert_eq!(MyValueType::default().try_to_scalar().unwrap().to_bits(), 0);
}

#[test]
fn type_names_and_colours() {
    assert_eq!(MyDataType::Scalar.name(), "scalar");
    assert_eq!(MyDataType::Vec2.name(), "2d vector");
    assert_eq!(MyDataType::DataFrame.name(), "dataframe");
    assert_eq!(MyDataType::Series.data_type_color(), (31, 207, 180));
}

#[test]
fn template_labels_and_categories() {
    assert_eq!(MyNodeTemplate::VectorTimesScalar.node_finder_label(), "Vector times scalar");
    assert_eq!(MyNodeTemplate::LoadCSV.node_graph_label(), "Load CSV");
    assert_eq!(MyNodeTemplate::VectorTimesScalar.node_finder_categories(), vec!["Vector", "Scalar"]);
    assert_eq!(MyNodeTemplate::SelectColumn.node_finder_categories(), vec!["Table", "Scalar"]);
    assert_eq!(MyNodeTemplate::AddScalar.node_finder_categories(), vec!["Scalar"]);
    let all = AllMyNodeTemplates.all_kinds();
    assert_eq!(all.len(), 11);
    assert_eq!(all[1], MyNodeTemplate::MakeVector);
}

#[test]
fn active_node_buttons() {
    let mut s = MyGraphState::new();
    let r = s.button_response(3);
    assert_eq!(r, MyResponse::SetActiveNode(3));
    s.apply(r);
    assert!(s.is_active(3));
    assert_eq!(s.button_response(3), MyResponse::ClearActiveNode);
    s.forget_missing(2);
    assert_eq!(s.active_node, None);
}
