use vstd::prelude::*;
use crate::value::MyDataType;

verus! {

/// The kinds of node, each with a fixed set of ports and one operation.
#[derive(Clone, Copy, PartialEq, Eq, Structural, Debug)]
pub enum MyNodeTemplate {
    MakeScalar,
    AddScalar,
    SubtractScalar,
    MakeVector,
    AddVector,
    SubtractVector,
    VectorTimesScalar,
    LoadCSV,
    CountRows,
    SelectColumn,
    SimpleFilter,
}

/// The inputs that a node of kind `t` declares, in order: name and type.
pub open spec fn template_inputs(t: MyNodeTemplate) -> Seq<(Seq<char>, MyDataType)> {
    match t {
        MyNodeTemplate::MakeScalar => seq![("value"@, MyDataType::Scalar)],
        MyNodeTemplate::AddScalar | MyNodeTemplate::SubtractScalar => seq![
            ("A"@, MyDataType::Scalar),
            ("B"@, MyDataType::Scalar),
        ],
        MyNodeTemplate::MakeVector => seq![("x"@, MyDataType::Scalar), ("y"@, MyDataType::Scalar)],
        MyNodeTemplate::AddVector | MyNodeTemplate::SubtractVector => seq![
            ("v1"@, MyDataType::Vec2),
            ("v2"@, MyDataType::Vec2),
        ],
        MyNodeTemplate::VectorTimesScalar => seq![
            ("scalar"@, MyDataType::Scalar),
            ("vector"@, MyDataType::Vec2),
        ],
        MyNodeTemplate::LoadCSV => seq![("path"@, MyDataType::String)],
        MyNodeTemplate::CountRows => seq![("df"@, MyDataType::DataFrame)],
        MyNodeTemplate::SelectColumn => seq![
            ("df"@, MyDataType::DataFrame),
            ("column"@, MyDataType::String),
        ],
        MyNodeTemplate::SimpleFilter => seq![
            ("df"@, MyDataType::Series),
            ("min"@, MyDataType::Scalar),
            ("max"@, MyDataType::Scalar),
        ],
    }
}

/// The type of the one output, named "out", of a node of kind `t`.
pub open spec fn template_output(t: MyNodeTemplate) -> MyDataType {
    match t {
        MyNodeTemplate::MakeScalar | MyNodeTemplate::AddScalar | MyNodeTemplate::SubtractScalar
        | MyNodeTemplate::CountRows => MyDataType::Scalar,
        MyNodeTemplate::MakeVector | MyNodeTemplate::AddVector | MyNodeTemplate::SubtractVector
        | MyNodeTemplate::VectorTimesScalar => MyDataType::Vec2,
        MyNodeTemplate::LoadCSV => MyDataType::DataFrame,
        MyNodeTemplate::SelectColumn | MyNodeTemplate::SimpleFilter => MyDataType::Series,
    }
}

pub open spec fn finder_label(t: MyNodeTemplate) -> Seq<char> {
    match t {
        MyNodeTemplate::MakeScalar => "New scalar"@,
        MyNodeTemplate::AddScalar => "Scalar add"@,
        MyNodeTemplate::SubtractScalar => "Scalar subtract"@,
        MyNodeTemplate::MakeVector => "New vector"@,
        MyNodeTemplate::AddVector => "Vector add"@,
        MyNodeTemplate::SubtractVector => "Vector subtract"@,
        MyNodeTemplate::VectorTimesScalar => "Vector times scalar"@,
        MyNodeTemplate::LoadCSV => "Load CSV"@,
        MyNodeTemplate::CountRows => "Count rows"@,
        MyNodeTemplate::SelectColumn => "Select column"@,
        MyNodeTemplate::SimpleFilter => "Simple filter"@,
    }
}

pub open spec fn finder_categories(t: MyNodeTemplate) -> Seq<Seq<char>> {
    match t {
        MyNodeTemplate::MakeScalar | MyNodeTemplate::AddScalar | MyNodeTemplate::SubtractScalar => seq![
            "Scalar"@,
        ],
        MyNodeTemplate::MakeVector | MyNodeTemplate::AddVector | MyNodeTemplate::SubtractVector => seq![
            "Vector"@,
        ],
        MyNodeTemplate::VectorTimesScalar => seq!["Vector"@, "Scalar"@],
        _ => seq!["Table"@, "Scalar"@],
    }
}

impl MyNodeTemplate {
    /// The name under which the node finder lists this kind.
    pub fn node_finder_label(&self) -> (r: &'static str)
        ensures
            r@ == finder_label(*self),
    {
        match self {
            MyNodeTemplate::MakeScalar => "New scalar",
            MyNodeTemplate::AddScalar => "Scalar add",
            MyNodeTemplate::SubtractScalar => "Scalar subtract",
            MyNodeTemplate::MakeVector => "New vector",
            MyNodeTemplate::AddVector => "Vector add",
            MyNodeTemplate::SubtractVector => "Vector subtract",
            MyNodeTemplate::VectorTimesScalar => "Vector times scalar",
            MyNodeTemplate::LoadCSV => "Load CSV",
            MyNodeTemplate::CountRows => "Count rows",
            MyNodeTemplate::SelectColumn => "Select column",
            MyNodeTemplate::SimpleFilter => "Simple filter",
        }
    }

    /// The label shown on a node of this kind: the node finder's label.
    pub fn node_graph_label(&self) -> (r: String)
        ensures
            r@ == finder_label(*self),
    {
        self.node_finder_label().to_owned()
    }

    /// The categories under which the node finder lists this kind.
    pub fn node_finder_categories(&self) -> (r: Vec<&'static str>)
        ensures
            r@.map_values(|c: &'static str| c@) == finder_categories(*self),
    {
        let r = match self {
            MyNodeTemplate::MakeScalar | MyNodeTemplate::AddScalar | MyNodeTemplate::SubtractScalar => vec!["Scalar"],
            MyNodeTemplate::MakeVector | MyNodeTemplate::AddVector | MyNodeTemplate::SubtractVector => vec!["Vector"],
            MyNodeTemplate::VectorTimesScalar => vec!["Vector", "Scalar"],
            MyNodeTemplate::LoadCSV | MyNodeTemplate::CountRows | MyNodeTemplate::SelectColumn
            | MyNodeTemplate::SimpleFilter => vec!["Table", "Scalar"],
        };
        assert(r@.map_values(|c: &'static str| c@) =~= finder_categories(*self));
        r
    }
}

/// Lists every kind of node, in the order the node finder shows them.
pub struct AllMyNodeTemplates;

impl AllMyNodeTemplates {
    pub fn all_kinds(&self) -> (r: Vec<MyNodeTemplate>)
        ensures
            r@ == seq![
                MyNodeTemplate::MakeScalar,
                MyNodeTemplate::MakeVector,
                MyNodeTemplate::AddScalar,
                MyNodeTemplate::SubtractScalar,
                MyNodeTemplate::AddVector,
                MyNodeTemplate::SubtractVector,
                MyNodeTemplate::VectorTimesScalar,
                MyNodeTemplate::LoadCSV,
                MyNodeTemplate::CountRows,
                MyNodeTemplate::SelectColumn,
                MyNodeTemplate::SimpleFilter,
            ],
    {
        let r = vec![
            MyNodeTemplate::MakeScalar,
            MyNodeTemplate::MakeVector,
            MyNodeTemplate::AddScalar,
            MyNodeTemplate::SubtractScalar,
            MyNodeTemplate::AddVector,
            MyNodeTemplate::SubtractVector,
            MyNodeTemplate::VectorTimesScalar,
            MyNodeTemplate::LoadCSV,
            MyNodeTemplate::CountRows,
            MyNodeTemplate::SelectColumn,
            MyNodeTemplate::SimpleFilter,
        ];
        assert(r@ =~= seq![
            MyNodeTemplate::MakeScalar,
            MyNodeTemplate::MakeVector,
            MyNodeTemplate::AddScalar,
            MyNodeTemplate::SubtractScalar,
            MyNodeTemplate::AddVector,
            MyNodeTemplate::SubtractVector,
            MyNodeTemplate::VectorTimesScalar,
            MyNodeTemplate::LoadCSV,
            MyNodeTemplate::CountRows,
            MyNodeTemplate::SelectColumn,
            MyNodeTemplate::SimpleFilter,
        ]);
        r
    }
}

} // verus!
