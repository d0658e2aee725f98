//! The report: the graph written out line by line.
//!
//! The graph knows callables by their identity. Their qualified paths are
//! looked up in a table of names that the caller supplies. A callable
//! that the table does not name is written as `#` and its number.

use vstd::prelude::*;
use vstd::string::StringExecFns;
use crate::edge::{CallEdge, DispatchKind, EdgeView};
use crate::graph::GraphView;
use crate::ids::{CallableId, SourceLocation};
use crate::store::EdgeSet;
use crate::visitor::CallgraphVisitor;

verus! {

/// The character of a decimal digit.
pub open spec fn digit(d: nat) -> char {
    if d == 0 {
        '0'
    } else if d == 1 {
        '1'
    } else if d == 2 {
        '2'
    } else if d == 3 {
        '3'
    } else if d == 4 {
        '4'
    } else if d == 5 {
        '5'
    } else if d == 6 {
        '6'
    } else if d == 7 {
        '7'
    } else if d == 8 {
        '8'
    } else {
        '9'
    }
}

/// A number in decimal notation, without leading zeros.
pub open spec fn decimal(n: nat) -> Seq<char>
    decreases n,
{
    if n < 10 {
        seq![digit(n)]
    } else {
        decimal(n / 10).push(digit(n % 10))
    }
}

/// The path under which the table of names lists `id`: that of the first
/// entry for it.
pub open spec fn path_of(names: Seq<(CallableId, String)>, id: CallableId) -> Option<Seq<char>>
    decreases names.len(),
{
    if names.len() == 0 {
        None
    } else if names[0].0 == id {
        Some(names[0].1@)
    } else {
        path_of(names.drop_first(), id)
    }
}

/// How the report writes a callable.
pub open spec fn label(names: Seq<(CallableId, String)>, id: CallableId) -> Seq<char> {
    match path_of(names, id) {
        Some(path) => path,
        None => "#"@ + decimal(id.0 as nat),
    }
}

/// How the report writes the caller of an edge.
pub open spec fn caller_label(names: Seq<(CallableId, String)>, caller: Option<CallableId>) -> Seq<char> {
    match caller {
        Some(id) => label(names, id),
        None => "Unknown Caller"@,
    }
}

/// The line of an edge: caller, callee and constraint depth.
pub open spec fn edge_line(names: Seq<(CallableId, String)>, e: EdgeView) -> Seq<char> {
    caller_label(names, e.caller) + " --- "@ + e.callee_path + " (constraint depth: "@ + decimal(e.depth)
        + ")"@
}

/// The line of a function: its name and where it is written.
pub open spec fn function_line(names: Seq<(CallableId, String)>, f: (CallableId, SourceLocation)) -> Seq<char> {
    "  Function: "@ + label(names, f.0) + ", Span: "@ + decimal(f.1.file as nat) + ":"@ + decimal(
        f.1.lo as nat,
    ) + ".."@ + decimal(f.1.hi as nat)
}

/// The line of an interface method.
pub open spec fn declaration_line(names: Seq<(CallableId, String)>, id: CallableId) -> Seq<char> {
    "  Method Declaration: "@ + label(names, id)
}

/// The first `upto` of `ids` by name, separated by commas.
pub open spec fn label_list(names: Seq<(CallableId, String)>, ids: Seq<CallableId>, upto: nat) -> Seq<char>
    decreases upto,
{
    if upto == 0 || upto > ids.len() {
        Seq::empty()
    } else if upto == 1 {
        label(names, ids[0])
    } else {
        label_list(names, ids, (upto - 1) as nat) + ", "@ + label(names, ids[upto - 1])
    }
}

/// The line of an interface method with its implementations.
pub open spec fn implementation_line(
    names: Seq<(CallableId, String)>,
    entry: (CallableId, Seq<CallableId>),
) -> Seq<char> {
    "  Method Implementation for "@ + label(names, entry.0) + ": ["@ + label_list(
        names,
        entry.1,
        entry.1.len(),
    ) + "]"@
}

/// The lines of the report on a graph: the functions, the interface
/// methods, their implementations and the three edge sets, each under its
/// heading and in order of first discovery.
pub open spec fn report(names: Seq<(CallableId, String)>, g: GraphView) -> Seq<Seq<char>> {
    seq!["Functions:"@] + g.functions.map_values(|f: (CallableId, SourceLocation)| function_line(names, f))
        + seq![""@, "Method Declarations:"@] + g.declarations.map_values(
        |d: CallableId| declaration_line(names, d),
    ) + seq![""@, "Method Implementations:"@] + g.implementations.map_values(
        |entry: (CallableId, Seq<CallableId>)| implementation_line(names, entry),
    ) + seq![""@, "Static Calls:"@] + g.static_calls.map_values(|e: EdgeView| edge_line(names, e))
        + seq![""@, "Dynamic Calls:"@] + g.dynamic_calls.map_values(|e: EdgeView| edge_line(names, e))
        + seq![""@, "Non Local Calls:"@] + g.non_local_calls.map_values(
        |e: EdgeView| edge_line(names, e),
    )
}

/// The text of each line.
pub open spec fn texts(lines: Seq<String>) -> Seq<Seq<char>> {
    lines.map_values(|s: String| s@)
}

/// The decimal digit `d` as text.
fn digit_text(d: u64) -> (r: &'static str)
    requires
        d < 10,
    ensures
        r@ == seq![digit(d as nat)],
{
    proof {
        reveal_strlit("0");
        reveal_strlit("1");
        reveal_strlit("2");
        reveal_strlit("3");
        reveal_strlit("4");
        reveal_strlit("5");
        reveal_strlit("6");
        reveal_strlit("7");
        reveal_strlit("8");
        reveal_strlit("9");
    }
    let r = if d == 0 {
        "0"
    } else if d == 1 {
        "1"
    } else if d == 2 {
        "2"
    } else if d == 3 {
        "3"
    } else if d == 4 {
        "4"
    } else if d == 5 {
        "5"
    } else if d == 6 {
        "6"
    } else if d == 7 {
        "7"
    } else if d == 8 {
        "8"
    } else {
        "9"
    };
    assert(r@ =~= seq![digit(d as nat)]);
    r
}

/// Writes a number in decimal notation.
pub fn to_decimal(n: u64) -> (r: String)
    ensures
        r@ == decimal(n as nat),
    decreases n,
{
    if n < 10 {
        String::from_str(digit_text(n))
    } else {
        let r = to_decimal(n / 10).concat(digit_text(n % 10));
        assert(r@ =~= decimal(n as nat));
        r
    }
}

/// Looks a callable up in the table of names.
pub fn find_path<'a>(names: &'a Vec<(CallableId, String)>, id: CallableId) -> (r: Option<&'a String>)
    ensures
        match r {
            Some(path) => path_of(names@, id) == Some(path@),
            None => path_of(names@, id) is None,
        },
{
    let mut i: usize = 0;
    assert(names@.skip(0) =~= names@);
    while i < names.len()
        invariant
            i <= names@.len(),
            path_of(names@, id) == path_of(names@.skip(i as int), id),
        decreases names@.len() - i,
    {
        assert(names@.skip(i as int)[0] == names@[i as int]);
        if names[i].0 == id {
            return Some(&names[i].1);
        }
        assert(names@.skip(i as int).drop_first() =~= names@.skip(i + 1));
        i = i + 1;
    }
    assert(names@.skip(i as int).len() == 0);
    None
}

/// Writes a callable as the report does.
pub fn label_of(names: &Vec<(CallableId, String)>, id: CallableId) -> (r: String)
    ensures
        r@ == label(names@, id),
{
    match find_path(names, id) {
        Some(path) => path.clone(),
        None => String::from_str("#").concat(to_decimal(id.0).as_str()),
    }
}

/// Writes the line of an edge.
pub fn edge_line_of(names: &Vec<(CallableId, String)>, e: &CallEdge) -> (r: String)
    ensures
        r@ == edge_line(names@, e@),
{
    let caller = match e.caller {
        Some(id) => label_of(names, id),
        None => String::from_str("Unknown Caller"),
    };
    caller.concat(" --- ").concat(e.callee_path.as_str()).concat(" (constraint depth: ").concat(
        to_decimal(e.constraint_depth as u64).as_str(),
    ).concat(")")
}

/// Writes the line of a function.
pub fn function_line_of(names: &Vec<(CallableId, String)>, id: CallableId, location: SourceLocation) -> (r:
    String)
    ensures
        r@ == function_line(names@, (id, location)),
{
    String::from_str("  Function: ").concat(label_of(names, id).as_str()).concat(", Span: ").concat(
        to_decimal(location.file as u64).as_str(),
    ).concat(":").concat(to_decimal(location.lo as u64).as_str()).concat("..").concat(
        to_decimal(location.hi as u64).as_str(),
    )
}

/// Writes the line of an interface method with its implementations.
pub fn implementation_line_of(
    names: &Vec<(CallableId, String)>,
    declaration: CallableId,
    implementations: &Vec<CallableId>,
) -> (r: String)
    ensures
        r@ == implementation_line(names@, (declaration, implementations@)),
{
    let mut list = String::new();
    let mut i: usize = 0;
    while i < implementations.len()
        invariant
            i <= implementations@.len(),
            list@ == label_list(names@, implementations@, i as nat),
        decreases implementations@.len() - i,
    {
        if i > 0 {
            list = list.concat(", ");
        }
        list = list.concat(label_of(names, implementations[i]).as_str());
        assert(list@ =~= label_list(names@, implementations@, (i + 1) as nat));
        i = i + 1;
    }
    String::from_str("  Method Implementation for ").concat(label_of(names, declaration).as_str()).concat(
        ": [",
    ).concat(list.as_str()).concat("]")
}

/// Appends the lines of an edge set under its heading.
fn push_edges(lines: &mut Vec<String>, names: &Vec<(CallableId, String)>, heading: &str, edges: &EdgeSet)
    requires
        edges.wf(),
    ensures
        texts(final(lines)@) == texts(old(lines)@) + seq![""@, heading@] + edges@.map_values(
            |e: EdgeView| edge_line(names@, e),
        ),
{
    let ghost line = |e: EdgeView| edge_line(names@, e);
    lines.push(String::from_str(""));
    lines.push(String::from_str(heading));
    let ghost start = texts(old(lines)@) + seq![""@, heading@];
    assert(texts(lines@) =~= start);
    let mut i: usize = 0;
    while i < edges.len()
        invariant
            i <= edges@.len(),
            line == |e: EdgeView| edge_line(names@, e),
            texts(lines@) == start + edges@.take(i as int).map_values(line),
        decreases edges@.len() - i,
    {
        let text = edge_line_of(names, edges.get(i));
        proof {
            assert(texts(lines@.push(text)) =~= texts(lines@).push(text@));
            assert(edges@.take(i + 1).map_values(line) =~= edges@.take(
                i as int,
            ).map_values(line).push(line(edges@[i as int])));
        }
        lines.push(text);
        i = i + 1;
    }
    assert(edges@.take(i as int) =~= edges@);
}

impl CallgraphVisitor {
    /// Writes the graph out, one line to a string.
    pub fn dump(&self, names: &Vec<(CallableId, String)>) -> (lines: Vec<String>)
        requires
            self.wf(),
        ensures
            texts(lines@) == report(names@, self@),
    {
        let mut lines: Vec<String> = Vec::new();
        lines.push(String::from_str("Functions:"));
        let ghost start = seq!["Functions:"@];
        assert(texts(lines@) =~= start);
        let ghost fline = |f: (CallableId, SourceLocation)| function_line(names@, f);
        let n: usize = self.function_count();
        let mut i: usize = 0;
        while i < n
            invariant
                i <= n,
                n == self@.functions.len(),
                fline == |f: (CallableId, SourceLocation)| function_line(names@, f),
                texts(lines@) == start + self@.functions.take(i as int).map_values(fline),
            decreases n - i,
        {
            let f = self.function_at(i);
            let text = function_line_of(names, f.0, f.1);
            proof {
                assert(texts(lines@.push(text)) =~= texts(lines@).push(text@));
                assert(self@.functions.take(i + 1).map_values(fline) =~= self@.functions.take(
                    i as int,
                ).map_values(fline).push(fline(self@.functions[i as int])));
            }
            lines.push(text);
            i = i + 1;
        }
        assert(self@.functions.take(i as int) =~= self@.functions);

        let ghost start = texts(lines@) + seq![""@, "Method Declarations:"@];
        lines.push(String::from_str(""));
        lines.push(String::from_str("Method Declarations:"));
        assert(texts(lines@) =~= start);
        let ghost dline = |d: CallableId| declaration_line(names@, d);
        let n: usize = self.declaration_count();
        let mut i: usize = 0;
        while i < n
            invariant
                i <= n,
                n == self@.declarations.len(),
                dline == |d: CallableId| declaration_line(names@, d),
                texts(lines@) == start + self@.declarations.take(i as int).map_values(dline),
            decreases n - i,
        {
            let text = String::from_str("  Method Declaration: ").concat(
                label_of(names, self.declaration_at(i)).as_str(),
            );
            proof {
                assert(texts(lines@.push(text)) =~= texts(lines@).push(text@));
                assert(self@.declarations.take(i + 1).map_values(dline)
                    =~= self@.declarations.take(i as int).map_values(dline).push(
                    dline(self@.declarations[i as int]),
                ));
            }
            lines.push(text);
            i = i + 1;
        }
        assert(self@.declarations.take(i as int) =~= self@.declarations);

        let ghost start = texts(lines@) + seq![""@, "Method Implementations:"@];
        lines.push(String::from_str(""));
        lines.push(String::from_str("Method Implementations:"));
        assert(texts(lines@) =~= start);
        let ghost iline = |entry: (CallableId, Seq<CallableId>)| implementation_line(names@, entry);
        let n: usize = self.implementation_count();
        let mut i: usize = 0;
        while i < n
            invariant
                i <= n,
                n == self@.implementations.len(),
                iline == |entry: (CallableId, Seq<CallableId>)| implementation_line(names@, entry),
                texts(lines@) == start + self@.implementations.take(i as int).map_values(iline),
            decreases n - i,
        {
            let entry = self.implementation_at(i);
            let text = implementation_line_of(names, entry.0, entry.1);
            proof {
                assert(texts(lines@.push(text)) =~= texts(lines@).push(text@));
                assert(self@.implementations.take(i + 1).map_values(iline)
                    =~= self@.implementations.take(i as int).map_values(iline).push(
                    iline(self@.implementations[i as int]),
                ));
            }
            lines.push(text);
            i = i + 1;
        }
        assert(self@.implementations.take(i as int) =~= self@.implementations);

        push_edges(&mut lines, names, "Static Calls:", self.edges(DispatchKind::Static));
        push_edges(&mut lines, names, "Dynamic Calls:", self.edges(DispatchKind::Dynamic));
        push_edges(&mut lines, names, "Non Local Calls:", self.edges(DispatchKind::NonLocal));
        lines
    }
}

} // verus!
