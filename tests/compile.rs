use gdlogue::error::{Field, GdlError};
use gdlogue::models::{Branch, Dialogue, Format, Node, NodeType, Selection};

fn sample_dialogue() -> Dialogue {
    let mut dialogue = Dialogue::new();
    dialogue.add_new_node(Node::start_node("Start", "1")).unwrap();
    dialogue.add_new_node(Node::omit_node("1", "3")).unwrap();
    dialogue
        .add_new_node(Node::selection_node(
            "3",
            Some("Speaker A"),
            "What do you think?",
            None,
            vec![Selection::new("No", "4"), Selection::new("Yes", "end")],
        ))
        .unwrap();
    dialogue
        .add_new_node(Node::branch_node(
            "4",
            None,
            vec![Branch::new("inventory", "spear", "6"), Branch::new("status", "ill", "7")],
        ))
        .unwrap();
    dialogue
        .add_new_node(Node::text_node("6", "Speaker B", "You have a spear?", Some("end")))
        .unwrap();
    dialogue
        .add_new_node(Node::text_node("7", "Speaker B", "You are ill...", Some("end")))
        .unwrap();
    dialogue.add_new_node(Node::end_node("End")).unwrap();
    dialogue
}

fn declaration_count(doc: &str) -> usize {
    doc.lines().filter(|l| l.contains(" [id=\"")).count()
}

fn edge_count(doc: &str) -> usize {
    doc.lines().filter(|l| l.contains(" -> ")).count()
}

fn one_node(node: Node) -> Dialogue {
    let mut dialogue = Dialogue::new();
    dialogue.add_new_node(node).unwrap();
    dialogue
}

#[test]
fn sample_dialogue_compiles_to_expected_document() {
    let doc = sample_dialogue().create_dot_script("Test").unwrap();
    let expected = [
        "digraph Test {\n",
        "    node [shape=\"record\"]\n",
        "    start [id=\"start\" label=\"{Start}\" ]\n",
        "    start -> 1\n",
        "    1 [id=\"1\" label=\"{{Omit|1}}\" colorfill=\"white\" color=\"gray\";]\n",
        "    1 -> 3\n",
        "    3 [id=\"3\" label=\"{{Selection|3}|Speaker A}\" colorfill=\"white\" color=\"green3\";]\n",
        "    3 -> 4\n",
        "    3 -> end\n",
        "    4 [id=\"4\" label=\"{{Branch|4}}\" colorfill=\"white\" color=\"dodgerblue3\";]\n",
        "    4 -> 6\n",
        "    4 -> 7\n",
        "    6 [id=\"6\" label=\"{{Text|6}|Speaker B}\" ]\n",
        "    6 -> end\n",
        "    7 [id=\"7\" label=\"{{Text|7}|Speaker B}\" ]\n",
        "    7 -> end\n",
        "    end [id=\"end\" label=\"{End}\" ]\n",
        "}",
    ]
    .concat();
    assert_eq!(doc, expected);
}

#[test]
fn sample_dialogue_declares_each_node_and_its_edges() {
    let dialogue = sample_dialogue();
    for node in &dialogue.nodes {
        assert!(dialogue.check_node_validation(node).is_ok());
    }
    let doc = dialogue.create_dot_script("Test").unwrap();
    assert_eq!(declaration_count(&doc), 7);
    // one each for start and omit, two each for the selection and the branch,
    // one for each of the two text nodes
    assert_eq!(edge_count(&doc), 8);
}

#[test]
fn declarations_follow_node_order() {
    let doc = sample_dialogue().create_dot_script("Test").unwrap();
    let ids: Vec<&str> = doc
        .lines()
        .filter(|l| l.contains(" [id=\""))
        .map(|l| l.trim_start().split(' ').next().unwrap())
        .collect();
    assert_eq!(ids, vec!["start", "1", "3", "4", "6", "7", "end"]);
}

#[test]
fn compile_is_deterministic() {
    let dialogue = sample_dialogue();
    let first = dialogue.create_dot_script("Test").unwrap();
    let second = dialogue.create_dot_script("Test").unwrap();
    assert_eq!(first, second);
}

#[test]
fn empty_dialogue_compiles_to_header_only() {
    let doc = Dialogue::new().create_dot_script("G").unwrap();
    assert_eq!(doc, "digraph G {\n    node [shape=\"record\"]\n}");
}

#[test]
fn selection_edges_follow_list_order() {
    let node = Node::selection_node(
        "q",
        None,
        "Pick",
        None,
        vec![Selection::new("a", "x"), Selection::new("b", "y"), Selection::new("c", "z")],
    );
    let doc = one_node(node).create_dot_script("S").unwrap();
    let edges: Vec<&str> = doc.lines().filter(|l| l.contains(" -> ")).collect();
    assert_eq!(edges, vec!["    q -> x", "    q -> y", "    q -> z"]);
    assert!(doc.contains("    q [id=\"q\" label=\"{{Selection|q}}\" colorfill=\"white\" color=\"green3\";]\n"));
}

#[test]
fn branch_with_no_entries_has_no_edges() {
    let doc = one_node(Node::branch_node("b", Some("x"), vec![])).create_dot_script("B").unwrap();
    assert_eq!(edge_count(&doc), 0);
    assert_eq!(declaration_count(&doc), 1);
}

#[test]
fn text_without_goto_has_no_edge() {
    let doc = one_node(Node::text_node("t", "Ann", "Hi", None)).create_dot_script("T").unwrap();
    assert_eq!(
        doc,
        "digraph T {\n    node [shape=\"record\"]\n    t [id=\"t\" label=\"{{Text|t}|Ann}\" ]\n}"
    );
}

#[test]
fn selection_without_selections_fails() {
    let mut node = Node::selection_node("3", Some("A"), "Q", None, vec![Selection::new("No", "4")]);
    node.selections = None;
    let dialogue = one_node(node);
    let expected = GdlError::InvalidNodeContent {
        node_type: NodeType::Selection,
        field: Field::Selections,
    };
    assert_eq!(dialogue.check_node_validation(&dialogue.nodes[0]), Err(expected));
    assert_eq!(dialogue.create_dot_script("Test"), Err(expected));
    assert_eq!(expected.description(), "Selection node requires selections array");
}

#[test]
fn text_without_speaker_fails() {
    let mut node = Node::text_node("6", "B", "Hi", Some("end"));
    node.speaker = None;
    let dialogue = one_node(node);
    let expected = GdlError::InvalidNodeContent { node_type: NodeType::Text, field: Field::Speaker };
    assert_eq!(dialogue.create_dot_script("Test"), Err(expected));
    assert_eq!(expected.description(), "Text node requires speaker");
}

#[test]
fn branch_without_branches_fails() {
    let mut node = Node::branch_node("4", None, vec![]);
    node.branches = None;
    let dialogue = one_node(node);
    let expected = GdlError::InvalidNodeContent { node_type: NodeType::Branch, field: Field::Branches };
    assert_eq!(dialogue.create_dot_script("Test"), Err(expected));
    assert_eq!(expected.description(), "Branch node requires branches array");
}

#[test]
fn start_without_goto_fails() {
    let mut node = Node::start_node("Start", "1");
    node.goto = None;
    let dialogue = one_node(node);
    let expected = GdlError::InvalidNodeContent { node_type: NodeType::Start, field: Field::Goto };
    assert_eq!(dialogue.create_dot_script("Test"), Err(expected));
    assert_eq!(expected.description(), "Start node requires goto id");
}

#[test]
fn omit_without_goto_fails() {
    let mut node = Node::omit_node("1", "3");
    node.goto = None;
    let dialogue = one_node(node);
    let expected = GdlError::InvalidNodeContent { node_type: NodeType::Omit, field: Field::Goto };
    assert_eq!(dialogue.create_dot_script("Test"), Err(expected));
    assert_eq!(expected.description(), "Omit node requires goto id");
}

#[test]
fn end_needs_no_field() {
    let dialogue = one_node(Node::end_node("Bye"));
    assert_eq!(dialogue.check_node_validation(&dialogue.nodes[0]), Ok(()));
}

#[test]
fn first_invalid_node_decides_the_error() {
    let mut dialogue = Dialogue::new();
    dialogue.add_new_node(Node::start_node("Start", "1")).unwrap();
    let mut omit = Node::omit_node("1", "3");
    omit.goto = None;
    dialogue.add_new_node(omit).unwrap();
    let mut text = Node::text_node("3", "A", "x", None);
    text.speaker = None;
    dialogue.add_new_node(text).unwrap();
    assert_eq!(
        dialogue.create_dot_script("Test"),
        Err(GdlError::InvalidNodeContent { node_type: NodeType::Omit, field: Field::Goto })
    );
}

#[test]
fn unusual_pairing_has_general_description() {
    let e = GdlError::InvalidNodeContent { node_type: NodeType::End, field: Field::Goto };
    assert_eq!(e.description(), "Node lacks a required field");
}

#[test]
fn constructors_fill_kind_fields() {
    let start = Node::start_node("Begin", "1");
    assert_eq!(start.id, "start");
    assert_eq!(start.node_type, NodeType::Start);
    assert_eq!(start.goto.as_deref(), Some("1"));
    let end = Node::end_node("Bye");
    assert_eq!(end.id, "end");
    assert_eq!(end.goto, None);
    let text = Node::text_node("6", "B", "Hi", Some("end"));
    assert_eq!(text.speaker.as_deref(), Some("B"));
    assert_eq!(text.text, "Hi");
    let sel = Node::selection_node("3", None, "Q", Some("9"), vec![Selection::new("No", "4")]);
    assert_eq!(sel.speaker, None);
    assert_eq!(sel.selections.as_ref().unwrap()[0].text, "No");
    assert_eq!(sel.selections.as_ref().unwrap()[0].goto, "4");
    assert!(sel.branches.is_none());
    let br = Node::branch_node("4", None, vec![Branch::new("inventory", "spear", "6")]);
    let b = &br.branches.as_ref().unwrap()[0];
    assert_eq!((b.target.as_str(), b.qual.as_str(), b.goto.as_str()), ("inventory", "spear", "6"));
    assert_eq!(br.text, "");
    let omit = Node::omit_node("1", "3");
    assert_eq!(omit.node_type.name(), "Omit");
}

#[test]
fn add_new_node_appends() {
    let mut dialogue = Dialogue::new();
    assert!(dialogue.add_new_node(Node::end_node("E")).is_ok());
    assert!(dialogue.add_new_node(Node::omit_node("1", "end")).is_ok());
    assert_eq!(dialogue.nodes.len(), 2);
    assert_eq!(dialogue.nodes[1].id, "1");
}

#[test]
fn render_args_per_format() {
    assert_eq!(Format::Pdf.render_args("/tmp/out.pdf"), vec!["-Tpdf", "-o", "/tmp/out.pdf"]);
    assert_eq!(
        Format::Png.render_args("/tmp/out.png"),
        vec!["-Tpng", "-Gdpi=300", "-o", "/tmp/out.png"]
    );
    assert_eq!(Format::Pdf.output_file_name(), "out.pdf");
    assert_eq!(Format::Png.output_file_name(), "out.png");
}
