//! Rendering of nested errors: a tree layout of message groups, and
//! colored lines for a chain of causes.
use vstd::prelude::*;

use owo_colors::AnsiColors;

use crate::style::{fg, paint};
use crate::text::{push_spaces, spaces, to_uppercase, uppercase_of};

verus! {

/// The lines that describe one error of a chain: its message first, then
/// details such as where it was raised.
pub struct ErrorFmtGroup {
    pub elements: Vec<String>,
}

/// Where an error was raised.
pub struct Location {
    pub file: String,
    pub line: String,
    pub column: String,
}

impl Location {
    pub fn new(file: String, line: String, column: String) -> (r: Location)
        ensures
            r.file == file,
            r.line == line,
            r.column == column,
    {
        Location { file, line, column }
    }
}

/// The indentation of a line of the group at `depth`: titles (the first
/// line of a group) sit one level left of the other lines.
pub open spec fn indentation_of(depth: nat, is_title: bool) -> Seq<char> {
    if depth == 0 {
        spaces(0)
    } else if is_title {
        spaces((4 * (depth - 1)) as nat)
    } else {
        spaces(4 * depth)
    }
}

/// The lines for element `index` of a group of `count` elements at `depth`.
pub open spec fn element_lines(
    depth: nat,
    last_group: bool,
    count: nat,
    index: nat,
    element: Seq<char>,
) -> Seq<Seq<char>> {
    if index == 0 {
        if depth == 0 {
            seq![element]
        } else {
            seq![indentation_of(depth, true) + "╰─▶ "@ + element]
        }
    } else if !last_group || index + 1 != count {
        let ind = indentation_of(depth, false);
        if index + 1 == count {
            seq![ind + "├╴"@ + element, ind + "│"@]
        } else {
            seq![ind + "├╴"@ + element]
        }
    } else {
        seq![indentation_of(depth, false) + "╰╴"@ + element]
    }
}

/// The lines for the first `upto` elements of a group at `depth`.
pub open spec fn group_lines(
    depth: nat,
    last_group: bool,
    elements: Seq<Seq<char>>,
    upto: nat,
) -> Seq<Seq<char>>
    decreases upto,
{
    if upto == 0 || upto > elements.len() {
        seq![]
    } else {
        group_lines(depth, last_group, elements, (upto - 1) as nat) + element_lines(
            depth,
            last_group,
            elements.len(),
            (upto - 1) as nat,
            elements[upto - 1],
        )
    }
}

/// The lines for the first `upto` groups; group `i` sits at depth `i`.
pub open spec fn tree_lines(groups: Seq<Seq<Seq<char>>>, upto: nat) -> Seq<Seq<char>>
    decreases upto,
{
    if upto == 0 || upto > groups.len() {
        seq![]
    } else {
        let i = (upto - 1) as nat;
        tree_lines(groups, i) + group_lines(i, i + 1 == groups.len(), groups[i as int], groups[i as int].len())
    }
}

/// The characters of every element of every group.
pub open spec fn group_views(groups: Seq<ErrorFmtGroup>) -> Seq<Seq<Seq<char>>> {
    groups.map_values(|g: ErrorFmtGroup| g.elements@.map_values(|e: String| e@))
}

/// Appends `levels` indentation steps of four spaces.
fn push_indentation(out: &mut String, levels: usize)
    ensures
        final(out)@ == old(out)@ + spaces((4 * levels) as nat),
{
    let mut i: usize = 0;
    while i < levels
        invariant
            i <= levels,
            out@ == old(out)@ + spaces((4 * i) as nat),
        decreases levels - i,
    {
        push_spaces(out, 4);
        i = i + 1;
        assert(out@ =~= old(out)@ + spaces((4 * i) as nat));
    }
}

/// The indentation of a line of the group at `depth`.
pub fn indentation(depth: usize, is_title: bool) -> (r: String)
    ensures
        r@ == indentation_of(depth as nat, is_title),
{
    let mut r = String::new();
    if depth == 0 {
    } else if is_title {
        push_indentation(&mut r, depth - 1);
    } else {
        push_indentation(&mut r, depth);
    }
    assert(r@ =~= indentation_of(depth as nat, is_title));
    r
}

/// `a` followed by `b` and `c`.
fn join3(a: &str, b: &str, c: &str) -> (r: String)
    ensures
        r@ == a@ + b@ + c@,
{
    let mut r = String::from_str(a);
    r.append(b);
    r.append(c);
    r
}

/// Lays out groups as a tree: each group hangs one level below the one
/// before, its title marked `╰─▶`, its other lines `├╴`, and the very last
/// line `╰╴`.
pub fn format(groups: Vec<ErrorFmtGroup>) -> (r: Vec<String>)
    ensures
        r@.map_values(|l: String| l@) == tree_lines(group_views(groups@), groups@.len()),
{
    let ghost gv = group_views(groups@);
    let mut lines: Vec<String> = Vec::new();
    let group_amount = groups.len();
    let mut gi: usize = 0;
    while gi < group_amount
        invariant
            group_amount == groups@.len(),
            gv == group_views(groups@),
            gi <= group_amount,
            lines@.map_values(|l: String| l@) == tree_lines(gv, gi as nat),
        decreases group_amount - gi,
    {
        let group = &groups[gi];
        let is_first_group = gi == 0;
        let is_last_group = group_amount == gi + 1;
        let element_amount = group.elements.len();
        let ghost before = lines@.map_values(|l: String| l@);
        let ghost ev = gv[gi as int];
        assert(ev == group.elements@.map_values(|e: String| e@));
        let mut ei: usize = 0;
        while ei < element_amount
            invariant
                element_amount == group.elements@.len(),
                ev == group.elements@.map_values(|e: String| e@),
                ev.len() == element_amount,
                ei <= element_amount,
                is_first_group == (gi == 0),
                is_last_group == (gi + 1 == group_amount),
                lines@.map_values(|l: String| l@) == before + group_lines(
                    gi as nat,
                    is_last_group,
                    ev,
                    ei as nat,
                ),
            decreases element_amount - ei,
        {
            let element = group.elements[ei].as_str();
            let is_first_element = ei == 0;
            let is_last_element = element_amount == ei + 1;
            let ghost prev = lines@;
            if is_first_element {
                if is_first_group {
                    lines.push(String::from_str(element));
                } else {
                    let ind = indentation(gi, true);
                    lines.push(join3(ind.as_str(), "╰─▶ ", element));
                }
            } else if !is_last_group || !is_last_element {
                let ind = indentation(gi, false);
                lines.push(join3(ind.as_str(), "├╴", element));
                if is_last_element {
                    lines.push(join3(ind.as_str(), "│", ""));
                    proof {
                        reveal_strlit("");
                    }
                    assert(ind@ + "│"@ + ""@ =~= ind@ + "│"@);
                }
            } else {
                let ind = indentation(gi, false);
                lines.push(join3(ind.as_str(), "╰╴", element));
            }
            assert(lines@.map_values(|l: String| l@) =~= prev.map_values(|l: String| l@)
                + element_lines(gi as nat, is_last_group, element_amount as nat, ei as nat, ev[ei as int]));
            ei = ei + 1;
            assert(before + group_lines(gi as nat, is_last_group, ev, ei as nat) =~= prev.map_values(
                |l: String| l@,
            ) + element_lines(gi as nat, is_last_group, element_amount as nat, (ei - 1) as nat, ev[ei - 1]));
        }
        gi = gi + 1;
    }
    lines
}

/// The elements of the group that describes one error: its message,
/// labelled with its category if it has one, then where it was raised.
pub open spec fn group_elements(
    message: Seq<char>,
    category: Option<Seq<char>>,
    location: Option<(Seq<char>, Seq<char>, Seq<char>)>,
) -> Seq<Seq<char>> {
    let head = match category {
        Some(c) => "error ("@ + c + "): "@ + message,
        None => "error: "@ + message,
    };
    match location {
        Some(l) => seq![head, "at "@ + l.0 + ":"@ + l.1 + ":"@ + l.2],
        None => seq![head],
    }
}

/// The group that describes one error of a chain.
pub fn error_group(message: &str, category: Option<&str>, location: Option<&Location>) -> (r:
    ErrorFmtGroup)
    ensures
        r.elements@.map_values(|e: String| e@) == group_elements(
            message@,
            match category {
                Some(c) => Some(c@),
                None => None,
            },
            match location {
                Some(l) => Some((l.file@, l.line@, l.column@)),
                None => None,
            },
        ),
{
    let mut head = match category {
        Some(c) => {
            let mut h = join3("error (", c, "): ");
            h.append(message);
            h
        },
        None => join3("error: ", message, ""),
    };
    proof {
        reveal_strlit("");
    }
    let mut elements: Vec<String> = Vec::new();
    elements.push(head);
    match location {
        Some(l) => {
            let mut at = join3("at ", l.file.as_str(), ":");
            at.append(l.line.as_str());
            at.append(":");
            at.append(l.column.as_str());
            elements.push(at);
        },
        None => {},
    }
    let r = ErrorFmtGroup { elements };
    assert(r.elements@.map_values(|e: String| e@) =~= group_elements(
        message@,
        match category {
            Some(c) => Some(c@),
            None => None,
        },
        match location {
            Some(l) => Some((l.file@, l.line@, l.column@)),
            None => None,
        },
    ));
    r
}

/// One error of a chain of causes: its message and, for errors raised by
/// this library, its category.
pub struct ErrorLink {
    pub category: Option<String>,
    pub message: String,
}

/// The text shown for one error: `[CATEGORY] message`, or the bare message.
pub open spec fn link_title(l: ErrorLink) -> Seq<char> {
    match l.category {
        Some(c) => "["@ + uppercase_of(c@) + "] "@ + l.message@,
        None => l.message@,
    }
}

/// One colored line of a chain at `depth`: a grey marker, indented by
/// `depth` spaces below the first line, then the text in red.
pub open spec fn line_at(text: Seq<char>, depth: nat) -> Seq<char> {
    if depth == 0 {
        " "@ + fg(AnsiColors::BrightBlack, "·"@) + " "@ + fg(AnsiColors::Red, text)
    } else {
        spaces(depth) + fg(AnsiColors::BrightBlack, "|·"@) + " "@ + fg(AnsiColors::Red, text)
    }
}

/// The lines of the first `n` errors of a chain, the first at depth `base`
/// and each cause one deeper, separated by line breaks.
pub open spec fn chain_text(links: Seq<ErrorLink>, base: nat, n: nat) -> Seq<char>
    decreases n,
{
    if n == 0 || n > links.len() {
        seq![]
    } else if n == 1 {
        line_at(link_title(links[0]), base)
    } else {
        chain_text(links, base, (n - 1) as nat) + "\n"@ + line_at(
            link_title(links[n - 1]),
            (base + n - 1) as nat,
        )
    }
}

/// The colored line for `string` at `deepness`.
pub fn create_line(string: &str, deepness: usize) -> (r: String)
    ensures
        r@ == line_at(string@, deepness as nat),
{
    let red = paint(string, AnsiColors::Red);
    if deepness == 0 {
        let marker = paint("·", AnsiColors::BrightBlack);
        let mut r = join3(" ", marker.as_str(), " ");
        r.append(red.as_str());
        r
    } else {
        let marker = paint("|·", AnsiColors::BrightBlack);
        let mut r = String::new();
        push_spaces(&mut r, deepness);
        r.append(marker.as_str());
        r.append(" ");
        r.append(red.as_str());
        assert(r@ =~= line_at(string@, deepness as nat));
        r
    }
}

fn link_title_text(l: &ErrorLink) -> (r: String)
    ensures
        r@ == link_title(*l),
{
    match &l.category {
        Some(c) => {
            let upper = to_uppercase(c.as_str());
            let mut r = join3("[", upper.as_str(), "] ");
            r.append(l.message.as_str());
            r
        },
        None => l.message.clone(),
    }
}

/// The lines of a chain, the first error at depth `base`.
fn chain_from(links: &Vec<ErrorLink>, base: usize) -> (r: String)
    requires
        base <= 1,
    ensures
        r@ == chain_text(links@, base as nat, links@.len()),
{
    let n = links.len();
    let mut r = String::new();
    let mut i: usize = 0;
    while i < links.len()
        invariant
            i <= links@.len(),
            base <= 1,
            n == links@.len(),
            r@ == chain_text(links@, base as nat, i as nat),
        decreases links@.len() - i,
    {
        let title = link_title_text(&links[i]);
        let line = create_line(title.as_str(), base + i);
        if i > 0 {
            r.append("\n");
        }
        r.append(line.as_str());
        i = i + 1;
        assert(r@ =~= chain_text(links@, base as nat, i as nat));
    }
    r
}

/// The causes of an error, one line each, the first indented one level.
pub fn nester(links: &Vec<ErrorLink>) -> (r: String)
    ensures
        r@ == chain_text(links@, 1, links@.len()),
{
    chain_from(links, 1)
}

/// An error and its causes, one line each: the error itself first, each
/// cause indented one level more than the one it caused.
pub fn display_chain(links: &Vec<ErrorLink>) -> (r: String)
    ensures
        r@ == chain_text(links@, 0, links@.len()),
{
    chain_from(links, 0)
}

} // verus!
