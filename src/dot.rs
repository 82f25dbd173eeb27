use vstd::prelude::*;
use vstd::seq_lib::*;
use vstd::string::*;
use crate::error::{Field, GdlError};
use crate::models::{kind_name, Dialogue, Node, NodeType};
use crate::validate::{is_valid, missing_field, validation_of};

verus! {

broadcast use Seq::lemma_flatten_push, Seq::lemma_flatten_singleton;

/// An edge line of the compiled document, from node `from` to node `to`.
pub open spec fn edge_line(from: Seq<char>, to: Seq<char>) -> Seq<char> {
    "    "@ + from + " -> "@ + to + "\n"@
}

/// The edge lines that a valid node contributes, in order.
pub open spec fn edge_lines(n: Node) -> Seq<Seq<char>> {
    match n.node_type {
        NodeType::Start => seq![edge_line("start"@, n.goto.unwrap()@)],
        NodeType::Text => if n.goto is Some {
            seq![edge_line(n.id@, n.goto.unwrap()@)]
        } else {
            Seq::empty()
        },
        NodeType::Selection => Seq::new(
            n.selections.unwrap()@.len(),
            |i: int| edge_line(n.id@, n.selections.unwrap()@[i].goto@),
        ),
        NodeType::Branch => Seq::new(
            n.branches.unwrap()@.len(),
            |i: int| edge_line(n.id@, n.branches.unwrap()@[i].goto@),
        ),
        NodeType::Omit => seq![edge_line(n.id@, n.goto.unwrap()@)],
        NodeType::End => Seq::empty(),
    }
}

/// The label fields of a valid node, each followed by the separator `|`.
pub open spec fn raw_label(n: Node) -> Seq<char> {
    let head = "{"@ + kind_name(n.node_type) + "|"@ + n.id@ + "}"@ + "|"@;
    match n.node_type {
        NodeType::Text => head + n.speaker.unwrap()@ + "|"@,
        NodeType::Selection => if n.speaker is Some {
            head + n.speaker.unwrap()@ + "|"@
        } else {
            head
        },
        NodeType::Branch | NodeType::Omit => head,
        NodeType::Start | NodeType::End => n.text@ + "|"@,
    }
}

/// The label of a node: its fields with the trailing separator trimmed.
pub open spec fn label(n: Node) -> Seq<char> {
    raw_label(n).drop_last()
}

/// The style attributes of a node kind.
pub open spec fn style(t: NodeType) -> Seq<char> {
    match t {
        NodeType::Selection => "colorfill=\"white\" color=\"green3\";"@,
        NodeType::Branch => "colorfill=\"white\" color=\"dodgerblue3\";"@,
        NodeType::Omit => "colorfill=\"white\" color=\"gray\";"@,
        _ => ""@,
    }
}

/// The line that declares a node.
pub open spec fn declaration_line(n: Node) -> Seq<char> {
    "    "@ + n.id@ + " [id=\""@ + n.id@ + "\" label=\"{"@ + label(n) + "}\" "@ + style(n.node_type)
        + "]\n"@
}

/// The lines that a node contributes: its declaration, then its edges.
pub open spec fn node_lines(n: Node) -> Seq<Seq<char>> {
    seq![declaration_line(n)] + edge_lines(n)
}

/// The lines of the document body for `nodes`, node after node.
pub open spec fn body_lines(nodes: Seq<Node>) -> Seq<Seq<char>> {
    nodes.map_values(|n: Node| node_lines(n)).flatten()
}

/// The opening of a document named `name`, with its global node style.
pub open spec fn header(name: Seq<char>) -> Seq<char> {
    "digraph "@ + name + " {\n"@ + "    node [shape=\"record\"]\n"@
}

/// The document compiled from valid `nodes` under the name `name`.
pub open spec fn dot_script(name: Seq<char>, nodes: Seq<Node>) -> Seq<char> {
    header(name) + body_lines(nodes).flatten() + "}"@
}

/// The error of the first node, in order, that lacks a required field.
pub open spec fn first_error(nodes: Seq<Node>) -> Option<GdlError>
    decreases nodes.len(),
{
    if nodes.len() == 0 {
        None
    } else {
        match first_error(nodes.drop_last()) {
            Some(e) => Some(e),
            None => match validation_of(nodes.last()) {
                Err(e) => Some(e),
                Ok(_) => None,
            },
        }
    }
}

/// What compiling `nodes` under the name `name` gives.
pub open spec fn compiled(name: Seq<char>, nodes: Seq<Node>) -> Result<Seq<char>, GdlError> {
    match first_error(nodes) {
        Some(e) => Err(e),
        None => Ok(dot_script(name, nodes)),
    }
}

/// The view of a compilation result.
pub open spec fn result_view(r: Result<String, GdlError>) -> Result<Seq<char>, GdlError> {
    match r {
        Ok(s) => Ok(s@),
        Err(e) => Err(e),
    }
}

proof fn lemma_node_lines_flatten(n: Node)
    ensures
        node_lines(n).flatten() == declaration_line(n) + edge_lines(n).flatten(),
{
    lemma_flatten_concat(seq![declaration_line(n)], edge_lines(n));
}

proof fn lemma_body_push(nodes: Seq<Node>, n: Node)
    ensures
        body_lines(nodes.push(n)) == body_lines(nodes) + node_lines(n),
        body_lines(nodes.push(n)).flatten() == body_lines(nodes).flatten() + declaration_line(n)
            + edge_lines(n).flatten(),
{
    let f = |m: Node| node_lines(m);
    assert(nodes.push(n).map_values(f) =~= nodes.map_values(f).push(node_lines(n)));
    lemma_flatten_concat(body_lines(nodes), node_lines(n));
    lemma_node_lines_flatten(n);
    assert(body_lines(nodes).flatten() + (declaration_line(n) + edge_lines(n).flatten())
        =~= body_lines(nodes).flatten() + declaration_line(n) + edge_lines(n).flatten());
}

proof fn lemma_first_error_extends(nodes: Seq<Node>, k: int)
    requires
        0 <= k <= nodes.len(),
        first_error(nodes.take(k)) is Some,
    ensures
        first_error(nodes) == first_error(nodes.take(k)),
    decreases nodes.len(),
{
    if k == nodes.len() {
        assert(nodes.take(k) =~= nodes);
    } else {
        assert(nodes.drop_last().take(k) =~= nodes.take(k));
        lemma_first_error_extends(nodes.drop_last(), k);
    }
}

fn push_edge(out: &mut String, from: &str, to: &str)
    ensures
        final(out)@ == old(out)@ + edge_line(from@, to@),
{
    let ghost start = out@;
    out.append("    ");
    out.append(from);
    out.append(" -> ");
    out.append(to);
    out.append("\n");
    assert(out@ =~= start + edge_line(from@, to@));
}

fn push_edges(out: &mut String, node: &Node)
    requires
        is_valid(*node),
    ensures
        final(out)@ == old(out)@ + edge_lines(*node).flatten(),
{
    let ghost start = out@;
    let ghost lines = edge_lines(*node);
    match node.node_type {
        NodeType::Start => {
            push_edge(out, "start", node.goto.as_ref().unwrap().as_str());
        },
        NodeType::Text => {
            if let Some(goto) = &node.goto {
                push_edge(out, node.id.as_str(), goto.as_str());
            } else {
                assert(out@ =~= start + lines.flatten());
            }
        },
        NodeType::Selection => {
            let sels = node.selections.as_ref().unwrap();
            let mut i: usize = 0;
            while i < sels.len()
                invariant
                    0 <= i <= sels@.len(),
                    node.node_type == NodeType::Selection,
                    sels@ == node.selections.unwrap()@,
                    lines == edge_lines(*node),
                    out@ == start + lines.take(i as int).flatten(),
                decreases sels.len() - i,
            {
                push_edge(out, node.id.as_str(), sels[i].goto.as_str());
                assert(lines.take(i + 1) =~= lines.take(i as int).push(lines[i as int]));
                i += 1;
            }
            assert(lines.take(i as int) =~= lines);
        },
        NodeType::Branch => {
            let branches = node.branches.as_ref().unwrap();
            let mut i: usize = 0;
            while i < branches.len()
                invariant
                    0 <= i <= branches@.len(),
                    node.node_type == NodeType::Branch,
                    branches@ == node.branches.unwrap()@,
                    lines == edge_lines(*node),
                    out@ == start + lines.take(i as int).flatten(),
                decreases branches.len() - i,
            {
                push_edge(out, node.id.as_str(), branches[i].goto.as_str());
                assert(lines.take(i + 1) =~= lines.take(i as int).push(lines[i as int]));
                i += 1;
            }
            assert(lines.take(i as int) =~= lines);
        },
        NodeType::Omit => {
            push_edge(out, node.id.as_str(), node.goto.as_ref().unwrap().as_str());
        },
        NodeType::End => {
            assert(out@ =~= start + lines.flatten());
        },
    }
}

fn node_label(node: &Node) -> (r: String)
    requires
        is_valid(*node),
    ensures
        r@ == label(*node),
{
    proof {
        reveal_strlit("|");
    }
    match node.node_type {
        NodeType::Start | NodeType::End => {
            assert((node.text@ + "|"@).drop_last() =~= node.text@);
            node.text.clone()
        },
        _ => {
            let mut l = "{".to_owned();
            l.append(node.node_type.name());
            l.append("|");
            l.append(node.id.as_str());
            l.append("}");
            let ghost head = l@;
            match node.node_type {
                NodeType::Text => {
                    l.append("|");
                    l.append(node.speaker.as_ref().unwrap().as_str());
                    assert((head + "|"@ + node.speaker.unwrap()@ + "|"@).drop_last() =~= l@);
                },
                NodeType::Selection => {
                    if let Some(speaker) = &node.speaker {
                        l.append("|");
                        l.append(speaker.as_str());
                        assert((head + "|"@ + speaker@ + "|"@).drop_last() =~= l@);
                    } else {
                        assert((head + "|"@).drop_last() =~= l@);
                    }
                },
                _ => {
                    assert((head + "|"@).drop_last() =~= l@);
                },
            }
            l
        },
    }
}

fn node_style(t: NodeType) -> (r: &'static str)
    ensures
        r@ == style(t),
{
    match t {
        NodeType::Selection => "colorfill=\"white\" color=\"green3\";",
        NodeType::Branch => "colorfill=\"white\" color=\"dodgerblue3\";",
        NodeType::Omit => "colorfill=\"white\" color=\"gray\";",
        _ => "",
    }
}

fn push_declaration(out: &mut String, node: &Node)
    requires
        is_valid(*node),
    ensures
        final(out)@ == old(out)@ + declaration_line(*node),
{
    let ghost start = out@;
    let l = node_label(node);
    out.append("    ");
    out.append(node.id.as_str());
    out.append(" [id=\"");
    out.append(node.id.as_str());
    out.append("\" label=\"{");
    out.append(l.as_str());
    out.append("}\" ");
    out.append(node_style(node.node_type));
    out.append("]\n");
    assert(out@ =~= start + declaration_line(*node));
}

impl Dialogue {
    /// Compiles the dialogue into a digraph document named `name`. Each node
    /// is validated just before it is emitted; the first invalid node, in
    /// order, aborts the compilation with its error.
    pub fn create_dot_script(&self, name: &str) -> (r: Result<String, GdlError>)
        ensures
            result_view(r) == compiled(name@, self.nodes@),
    {
        let mut out = "digraph ".to_owned();
        out.append(name);
        out.append(" {\n");
        out.append("    node [shape=\"record\"]\n");
        let ghost nodes = self.nodes@;
        proof {
            assert(nodes.take(0) =~= Seq::<Node>::empty());
            assert(nodes.take(0).map_values(|m: Node| node_lines(m)) =~= Seq::<Seq<Seq<char>>>::empty());
            assert(out@ =~= header(name@) + body_lines(nodes.take(0)).flatten());
        }
        let mut i: usize = 0;
        while i < self.nodes.len()
            invariant
                0 <= i <= nodes.len(),
                nodes == self.nodes@,
                first_error(nodes.take(i as int)) is None,
                out@ == header(name@) + body_lines(nodes.take(i as int)).flatten(),
            decreases nodes.len() - i,
        {
            let node = &self.nodes[i];
            let checked = self.check_node_validation(node);
            proof {
                assert(nodes.take(i + 1).drop_last() =~= nodes.take(i as int));
                assert(nodes.take(i + 1) =~= nodes.take(i as int).push(*node));
            }
            if let Err(e) = checked {
                proof {
                    lemma_first_error_extends(nodes, i + 1);
                }
                return Err(e);
            }
            let ghost before = out@;
            push_declaration(&mut out, node);
            push_edges(&mut out, node);
            proof {
                lemma_body_push(nodes.take(i as int), *node);
                assert(out@ =~= header(name@) + body_lines(nodes.take(i + 1)).flatten());
            }
            i += 1;
        }
        out.append("}");
        proof {
            assert(nodes.take(i as int) =~= nodes);
        }
        Ok(out)
    }
}

proof fn lemma_first_error_none(nodes: Seq<Node>)
    ensures
        first_error(nodes) is None <==> forall|i: int| 0 <= i < nodes.len() ==> is_valid(#[trigger] nodes[i]),
    decreases nodes.len(),
{
    if nodes.len() > 0 {
        let rest = nodes.drop_last();
        lemma_first_error_none(rest);
        if first_error(nodes) is None {
            assert forall|i: int| 0 <= i < nodes.len() implies is_valid(#[trigger] nodes[i]) by {
                if i < nodes.len() - 1 {
                    assert(rest[i] == nodes[i]);
                }
            }
        }
        if forall|i: int| 0 <= i < nodes.len() ==> is_valid(#[trigger] nodes[i]) {
            assert forall|i: int| 0 <= i < rest.len() implies is_valid(#[trigger] rest[i]) by {
                assert(rest[i] == nodes[i]);
            }
            assert(is_valid(nodes[nodes.len() - 1]));
        }
    }
}

proof fn lemma_body_concat(a: Seq<Node>, b: Seq<Node>)
    ensures
        body_lines(a + b) == body_lines(a) + body_lines(b),
{
    let f = |m: Node| node_lines(m);
    assert((a + b).map_values(f) =~= a.map_values(f) + b.map_values(f));
    lemma_flatten_concat(a.map_values(f), b.map_values(f));
}

/// A dialogue whose every node carries the fields its kind requires compiles
/// without error, and the body of its document holds one block per node, in
/// the dialogue's order: the node's declaration line, then its edge lines.
pub proof fn lemma_valid_dialogue_compiles(name: Seq<char>, nodes: Seq<Node>)
    requires
        forall|i: int| 0 <= i < nodes.len() ==> is_valid(#[trigger] nodes[i]),
    ensures
        compiled(name, nodes) == Ok::<Seq<char>, GdlError>(dot_script(name, nodes)),
        forall|i: int|
            0 <= i < nodes.len() ==> body_lines(nodes) == body_lines(nodes.take(i)) + node_lines(
                #[trigger] nodes[i],
            ) + body_lines(nodes.skip(i + 1)),
        forall|n: Node|
            #![trigger node_lines(n)]
            node_lines(n).len() == 1 + edge_lines(n).len() && node_lines(n)[0] == declaration_line(n)
                && node_lines(n).skip(1) == edge_lines(n),
{
    lemma_first_error_none(nodes);
    assert forall|i: int| 0 <= i < nodes.len() implies body_lines(nodes) == body_lines(nodes.take(i))
        + node_lines(#[trigger] nodes[i]) + body_lines(nodes.skip(i + 1)) by {
        assert(nodes =~= nodes.take(i) + seq![nodes[i]] + nodes.skip(i + 1));
        lemma_body_concat(nodes.take(i) + seq![nodes[i]], nodes.skip(i + 1));
        lemma_body_concat(nodes.take(i), seq![nodes[i]]);
        assert(body_lines(seq![nodes[i]]) =~= node_lines(nodes[i])) by {
            let f = |m: Node| node_lines(m);
            assert(seq![nodes[i]].map_values(f) =~= seq![node_lines(nodes[i])]);
        }
    }
    assert forall|n: Node| #![trigger node_lines(n)] node_lines(n).skip(1) == edge_lines(n) by {
        assert(node_lines(n).skip(1) =~= edge_lines(n));
    }
}

/// Compiling the same dialogue under the same name twice gives the same
/// result, text for text.
pub proof fn lemma_compile_deterministic(
    name: Seq<char>,
    nodes: Seq<Node>,
    first: Result<String, GdlError>,
    second: Result<String, GdlError>,
)
    requires
        result_view(first) == compiled(name, nodes),
        result_view(second) == compiled(name, nodes),
    ensures
        result_view(first) == result_view(second),
        first is Ok ==> second is Ok && first.unwrap()@ == second.unwrap()@,
{
}

/// A node that lacks the field its kind requires fails validation with an
/// error naming its kind and that field.
pub proof fn lemma_missing_field_reported(n: Node)
    ensures
        n.node_type == NodeType::Text && n.speaker is None ==> validation_of(n) == Err::<(), GdlError>(
            GdlError::InvalidNodeContent { node_type: NodeType::Text, field: Field::Speaker },
        ),
        n.node_type == NodeType::Selection && n.selections is None ==> validation_of(n) == Err::<
            (),
            GdlError,
        >(GdlError::InvalidNodeContent { node_type: NodeType::Selection, field: Field::Selections }),
        n.node_type == NodeType::Branch && n.branches is None ==> validation_of(n) == Err::<(), GdlError>(
            GdlError::InvalidNodeContent { node_type: NodeType::Branch, field: Field::Branches },
        ),
        n.node_type == NodeType::Start && n.goto is None ==> validation_of(n) == Err::<(), GdlError>(
            GdlError::InvalidNodeContent { node_type: NodeType::Start, field: Field::Goto },
        ),
        n.node_type == NodeType::Omit && n.goto is None ==> validation_of(n) == Err::<(), GdlError>(
            GdlError::InvalidNodeContent { node_type: NodeType::Omit, field: Field::Goto },
        ),
        missing_field(n) is Some ==> compiled(Seq::empty(), seq![n]) is Err,
{
    assert(seq![n].drop_last() =~= Seq::<Node>::empty());
    assert(first_error(Seq::<Node>::empty()) is None);
}

/// The edges of a valid node, as the per-kind rules give them: one per
/// selection or branch, in list order, each to that entry's target; one for
/// a start, an omit, or a text node with a target; none otherwise.
pub proof fn lemma_edge_lines(n: Node)
    requires
        is_valid(n),
    ensures
        n.node_type == NodeType::Selection ==> edge_lines(n).len() == n.selections.unwrap()@.len() && (
        forall|i: int|
            0 <= i < edge_lines(n).len() ==> #[trigger] edge_lines(n)[i] == edge_line(
                n.id@,
                n.selections.unwrap()@[i].goto@,
            )),
        n.node_type == NodeType::Branch ==> edge_lines(n).len() == n.branches.unwrap()@.len() && (
        forall|i: int|
            0 <= i < edge_lines(n).len() ==> #[trigger] edge_lines(n)[i] == edge_line(
                n.id@,
                n.branches.unwrap()@[i].goto@,
            )),
        n.node_type == NodeType::Start ==> edge_lines(n) == seq![edge_line("start"@, n.goto.unwrap()@)],
        n.node_type == NodeType::Omit ==> edge_lines(n) == seq![edge_line(n.id@, n.goto.unwrap()@)],
        n.node_type == NodeType::Text && n.goto is Some ==> edge_lines(n) == seq![
            edge_line(n.id@, n.goto.unwrap()@),
        ],
        n.node_type == NodeType::Text && n.goto is None ==> edge_lines(n).len() == 0,
        n.node_type == NodeType::End ==> edge_lines(n).len() == 0,
{
}

} // verus!
