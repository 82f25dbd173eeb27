use vstd::prelude::*;

verus! {

/// The six kinds of dialogue node.
#[derive(Clone, Copy, Debug, PartialEq, Eq, Structural)]
pub enum NodeType {
    Start,
    Text,
    Branch,
    Selection,
    Omit,
    End,
}

/// The name of a node kind, as it appears in compiled labels.
pub open spec fn kind_name(t: NodeType) -> Seq<char> {
    match t {
        NodeType::Start => "Start"@,
        NodeType::Text => "Text"@,
        NodeType::Branch => "Branch"@,
        NodeType::Selection => "Selection"@,
        NodeType::Omit => "Omit"@,
        NodeType::End => "End"@,
    }
}

impl NodeType {
    /// The name of this kind of node.
    pub fn name(&self) -> (r: &'static str)
        ensures
            r@ == kind_name(*self),
    {
        match self {
            NodeType::Text => "Text",
            NodeType::Branch => "Branch",
            NodeType::Selection => "Selection",
            NodeType::Start => "Start",
            NodeType::End => "End",
            NodeType::Omit => "Omit",
        }
    }
}

/// A labelled choice offered by a selection node, leading to `goto`.
#[derive(Debug)]
pub struct Selection {
    pub text: String,
    pub goto: String,
}

impl Selection {
    pub fn new(text: &str, goto: &str) -> (r: Self)
        ensures
            r.text@ == text@,
            r.goto@ == goto@,
    {
        Self { text: text.to_owned(), goto: goto.to_owned() }
    }
}

/// A conditional edge of a branch node: when `target` has `qual`, go to `goto`.
#[derive(Debug)]
pub struct Branch {
    pub target: String,
    pub qual: String,
    pub goto: String,
}

impl Branch {
    pub fn new(target: &str, qual: &str, goto: &str) -> (r: Self)
        ensures
            r.target@ == target@,
            r.qual@ == qual@,
            r.goto@ == goto@,
    {
        Self { target: target.to_owned(), qual: qual.to_owned(), goto: goto.to_owned() }
    }
}

/// One node of a dialogue graph. Which optional fields a node needs depends
/// on its kind; the validator checks them before compilation.
#[derive(Debug)]
pub struct Node {
    pub id: String,
    pub node_type: NodeType,
    pub goto: Option<String>,
    pub text: String,
    /// Carried by text and selection nodes.
    pub speaker: Option<String>,
    /// Carried by selection nodes.
    pub selections: Option<Vec<Selection>>,
    /// Carried by branch nodes.
    pub branches: Option<Vec<Branch>>,
}

fn owned_opt(s: Option<&str>) -> (r: Option<String>)
    ensures
        r.is_some() == s.is_some(),
        s.is_some() ==> r.unwrap()@ == s.unwrap()@,
{
    match s {
        Some(s) => Some(s.to_owned()),
        None => None,
    }
}

impl Node {
    pub fn omit_node(id: &str, goto: &str) -> (r: Self)
        ensures
            r.id@ == id@,
            r.node_type == NodeType::Omit,
            r.text@ == Seq::<char>::empty(),
            r.speaker.is_none(),
            r.goto.is_some() && r.goto.unwrap()@ == goto@,
            r.selections.is_none(),
            r.branches.is_none(),
    {
        Self {
            id: id.to_owned(),
            node_type: NodeType::Omit,
            text: String::new(),
            speaker: None,
            goto: Some(goto.to_owned()),
            selections: None,
            branches: None,
        }
    }

    /// The start node; its id is always `start`.
    pub fn start_node(text: &str, goto: &str) -> (r: Self)
        ensures
            r.id@ == "start"@,
            r.node_type == NodeType::Start,
            r.text@ == text@,
            r.speaker.is_none(),
            r.goto.is_some() && r.goto.unwrap()@ == goto@,
            r.selections.is_none(),
            r.branches.is_none(),
    {
        Self {
            id: "start".to_owned(),
            node_type: NodeType::Start,
            text: text.to_owned(),
            speaker: None,
            goto: Some(goto.to_owned()),
            selections: None,
            branches: None,
        }
    }

    /// The end node; its id is always `end`.
    pub fn end_node(text: &str) -> (r: Self)
        ensures
            r.id@ == "end"@,
            r.node_type == NodeType::End,
            r.text@ == text@,
            r.speaker.is_none(),
            r.goto.is_none(),
            r.selections.is_none(),
            r.branches.is_none(),
    {
        Self {
            id: "end".to_owned(),
            node_type: NodeType::End,
            text: text.to_owned(),
            speaker: None,
            goto: None,
            selections: None,
            branches: None,
        }
    }

    pub fn text_node(id: &str, speaker: &str, text: &str, goto: Option<&str>) -> (r: Self)
        ensures
            r.id@ == id@,
            r.node_type == NodeType::Text,
            r.text@ == text@,
            r.speaker.is_some() && r.speaker.unwrap()@ == speaker@,
            r.goto.is_some() == goto.is_some(),
            goto.is_some() ==> r.goto.unwrap()@ == goto.unwrap()@,
            r.selections.is_none(),
            r.branches.is_none(),
    {
        Self {
            id: id.to_owned(),
            node_type: NodeType::Text,
            text: text.to_owned(),
            speaker: Some(speaker.to_owned()),
            goto: owned_opt(goto),
            selections: None,
            branches: None,
        }
    }

    pub fn selection_node(
        id: &str,
        speaker: Option<&str>,
        text: &str,
        goto: Option<&str>,
        selections: Vec<Selection>,
    ) -> (r: Self)
        ensures
            r.id@ == id@,
            r.node_type == NodeType::Selection,
            r.text@ == text@,
            r.speaker.is_some() == speaker.is_some(),
            speaker.is_some() ==> r.speaker.unwrap()@ == speaker.unwrap()@,
            r.goto.is_some() == goto.is_some(),
            goto.is_some() ==> r.goto.unwrap()@ == goto.unwrap()@,
            r.selections == Some(selections),
            r.branches.is_none(),
    {
        Self {
            id: id.to_owned(),
            node_type: NodeType::Selection,
            text: text.to_owned(),
            speaker: owned_opt(speaker),
            goto: owned_opt(goto),
            selections: Some(selections),
            branches: None,
        }
    }

    pub fn branch_node(id: &str, goto: Option<&str>, branches: Vec<Branch>) -> (r: Self)
        ensures
            r.id@ == id@,
            r.node_type == NodeType::Branch,
            r.text@ == Seq::<char>::empty(),
            r.speaker.is_none(),
            r.goto.is_some() == goto.is_some(),
            goto.is_some() ==> r.goto.unwrap()@ == goto.unwrap()@,
            r.selections.is_none(),
            r.branches == Some(branches),
    {
        Self {
            id: id.to_owned(),
            node_type: NodeType::Branch,
            text: String::new(),
            speaker: None,
            goto: owned_opt(goto),
            selections: None,
            branches: Some(branches),
        }
    }
}

/// A dialogue graph: its nodes, in the order they were added. Edges are
/// plain node ids: they are not resolved against the nodes, ids are not
/// checked for uniqueness, and no text is escaped when compiled.
#[derive(Debug)]
pub struct Dialogue {
    pub nodes: Vec<Node>,
}

impl Dialogue {
    pub fn new() -> (r: Self)
        ensures
            r.nodes@.len() == 0,
    {
        Self { nodes: Vec::new() }
    }

    /// Appends a node; this never fails.
    pub fn add_new_node(&mut self, node: Node) -> (r: Result<(), crate::error::GdlError>)
        ensures
            r is Ok,
            final(self).nodes@ == old(self).nodes@.push(node),
    {
        self.nodes.push(node);
        Ok(())
    }
}

/// The image encodings the renderer can write.
#[derive(Clone, Copy, Debug, PartialEq, Eq, Structural)]
pub enum Format {
    /// Vector, paginated.
    Pdf,
    /// Raster, at a fixed resolution.
    Png,
}

/// The file name of the image written in format `f`.
pub open spec fn output_name_of(f: Format) -> Seq<char> {
    match f {
        Format::Pdf => "out.pdf"@,
        Format::Png => "out.png"@,
    }
}

/// The renderer's arguments for format `f`, writing to `out_path`.
pub open spec fn render_args_of(f: Format, out_path: Seq<char>) -> Seq<Seq<char>> {
    match f {
        Format::Pdf => seq!["-Tpdf"@, "-o"@, out_path],
        Format::Png => seq!["-Tpng"@, "-Gdpi=300"@, "-o"@, out_path],
    }
}

impl Format {
    /// The file name of the image written in this format.
    pub fn output_file_name(&self) -> (r: &'static str)
        ensures
            r@ == output_name_of(*self),
    {
        match self {
            Format::Pdf => "out.pdf",
            Format::Png => "out.png",
        }
    }

    /// The arguments that make the renderer write this format to `out_path`.
    pub fn render_args(&self, out_path: &str) -> (r: Vec<String>)
        ensures
            r@.map_values(|a: String| a@) == render_args_of(*self, out_path@),
    {
        let r = match self {
            Format::Pdf => vec!["-Tpdf".to_owned(), "-o".to_owned(), out_path.to_owned()],
            Format::Png => vec![
                "-Tpng".to_owned(),
                "-Gdpi=300".to_owned(),
                "-o".to_owned(),
                out_path.to_owned(),
            ],
        };
        assert(r@.map_values(|a: String| a@) =~= render_args_of(*self, out_path@));
        r
    }
}

} // verus!
