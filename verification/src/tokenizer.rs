//! The structural layer of the document format: a line-oriented grammar.
//! Every line opens with a tag field, fields are separated by `|`, and the
//! tokenizer classifies each non-empty line into the parse-tree node of its
//! construct. Lines with an unknown tag, and recognized tags with the wrong
//! number of fields, become `Unknown` nodes, which the transformer skips.

use vstd::prelude::*;
use crate::audit::opt_view;
use crate::text::{
    find_char, first_index, lemma_split_nonempty, split_on, split_spec, str_eq, views_of,
};
use crate::tree::{
    list_views, node_views, nu_views, CourseFields, CourseFieldsV, InfoFields, InfoFieldsV,
    ListToken, ListTokenV, Node, NodeV, NuToken, NuTokenV,
};

verus! {

/// The NUPath tokens of the fields after the tag: the first is the status
/// code, the second the category code, the rest other text.
pub open spec fn nu_tokens_spec(fields: Seq<Seq<char>>) -> Seq<NuTokenV> {
    Seq::new(
        fields.len(),
        |i: int|
            if i == 0 {
                NuTokenV::Status(fields[0])
            } else if i == 1 {
                NuTokenV::Id(fields[1])
            } else {
                NuTokenV::Other(fields[i])
            },
    )
}

/// One course-list item: the range word, or an item whose optional subject
/// and number are split at the first space.
pub open spec fn list_token_of(f: Seq<char>) -> ListTokenV {
    if f == "TO"@ {
        ListTokenV::To
    } else {
        let k = first_index(f, ' ');
        if k == f.len() {
            ListTokenV::Course { subject: None, number: f }
        } else {
            ListTokenV::Course { subject: Some(f.take(k)), number: f.skip(k + 1) }
        }
    }
}

/// The course-list tokens of the fields after the tag.
pub open spec fn list_tokens_spec(fields: Seq<Seq<char>>) -> Seq<ListTokenV> {
    fields.map_values(|f: Seq<char>| list_token_of(f))
}

/// The `i`-th field, when there are that many.
pub open spec fn field_opt(fields: Seq<Seq<char>>, i: int) -> Option<Seq<char>> {
    if 0 <= i < fields.len() {
        Some(fields[i])
    } else {
        None
    }
}

/// The fields of a course line, in order: year code, subject, credit
/// hours, display name, modifier tag.
pub open spec fn course_fields_spec(fields: Seq<Seq<char>>) -> CourseFieldsV {
    CourseFieldsV {
        year: field_opt(fields, 0),
        course: field_opt(fields, 1),
        credits: field_opt(fields, 2),
        name: field_opt(fields, 3),
        maybe_ip: field_opt(fields, 4),
    }
}

/// The fields of the summary section, in order: earned hours, courses
/// taken, attempted hours, quality points, GPA.
pub open spec fn info_fields_spec(fields: Seq<Seq<char>>) -> InfoFieldsV {
    InfoFieldsV {
        earned_hours: field_opt(fields, 0),
        courses_taken: field_opt(fields, 1),
        attempted_hours: field_opt(fields, 2),
        points: field_opt(fields, 3),
        gpa: field_opt(fields, 4),
    }
}

/// The construct one non-empty line denotes, decided by its leading tag
/// field.
pub open spec fn classify_spec(line: Seq<char>) -> NodeV {
    let parts = split_spec(line, '|');
    let tag = parts[0];
    if tag == "GRAD"@ && parts.len() == 2 {
        NodeV::GradDateSection(Box::new(NodeV::DateLeaf(parts[1])))
    } else if tag == "CATALOG"@ && parts.len() == 2 {
        NodeV::CatalogSection(Box::new(NodeV::CatalogNumLeaf(parts[1])))
    } else if tag == "MAJOR"@ && parts.len() == 2 {
        NodeV::MajorBlock(parts[1])
    } else if tag == "NUPATH"@ {
        NodeV::CourseOption(Box::new(NodeV::NuPathNode(nu_tokens_spec(parts.skip(1)))))
    } else if tag == "LIST"@ {
        NodeV::CourseOption(Box::new(NodeV::CourseListNode(list_tokens_spec(parts.skip(1)))))
    } else if tag == "COURSE"@ {
        NodeV::CourseOption(Box::new(NodeV::SingleCourseNode(course_fields_spec(parts.skip(1)))))
    } else if tag == "INFO"@ {
        NodeV::InfoNode(info_fields_spec(parts.skip(1)))
    } else {
        NodeV::Unknown(line)
    }
}

/// The nodes of a line sequence: empty lines dropped, the rest classified
/// in order.
pub open spec fn tokenize_lines(lines: Seq<Seq<char>>) -> Seq<NodeV>
    decreases lines.len(),
{
    if lines.len() == 0 {
        Seq::empty()
    } else if lines[0].len() == 0 {
        tokenize_lines(lines.skip(1))
    } else {
        seq![classify_spec(lines[0])] + tokenize_lines(lines.skip(1))
    }
}

/// The parse tree of a whole document: its lines, classified in document
/// order.
pub open spec fn tokenize_spec(text: Seq<char>) -> Seq<NodeV> {
    tokenize_lines(split_spec(text, '\n'))
}

/// Builds the NUPath tokens of the fields after the tag.
fn nu_tokens(parts: &Vec<String>) -> (r: Vec<NuToken>)
    requires
        parts@.len() >= 1,
    ensures
        nu_views(r@) == nu_tokens_spec(views_of(parts@).skip(1)),
{
    let mut toks: Vec<NuToken> = Vec::new();
    let mut j: usize = 1;
    while j < parts.len()
        invariant
            1 <= j <= parts@.len(),
            toks@.len() == j - 1,
            nu_views(toks@) == nu_tokens_spec(views_of(parts@).skip(1)).take(j - 1),
        decreases parts.len() - j,
    {
        proof {
            assert(views_of(parts@).skip(1)[j - 1] == views_of(parts@)[j as int]);
            assert(views_of(parts@)[j as int] == parts@[j as int]@);
        }
        let s = parts[j].clone();
        let tok = if j == 1 {
            NuToken::Status(s)
        } else if j == 2 {
            NuToken::Id(s)
        } else {
            NuToken::Other(s)
        };
        let ghost old_views = nu_views(toks@);
        toks.push(tok);
        proof {
            assert(nu_views(toks@) =~= old_views.push(tok@));
            assert(nu_tokens_spec(views_of(parts@).skip(1))[j - 1] == tok@);
            assert(nu_views(toks@) =~= nu_tokens_spec(views_of(parts@).skip(1)).take(j as int));
        }
        j += 1;
    }
    proof {
        assert(nu_views(toks@) =~= nu_tokens_spec(views_of(parts@).skip(1)));
    }
    toks
}

/// Builds the course-list tokens of the fields after the tag.
fn list_tokens(parts: &Vec<String>) -> (r: Vec<ListToken>)
    requires
        parts@.len() >= 1,
    ensures
        list_views(r@) == list_tokens_spec(views_of(parts@).skip(1)),
{
    let mut toks: Vec<ListToken> = Vec::new();
    let mut j: usize = 1;
    while j < parts.len()
        invariant
            1 <= j <= parts@.len(),
            toks@.len() == j - 1,
            list_views(toks@) == list_tokens_spec(views_of(parts@).skip(1)).take(j - 1),
        decreases parts.len() - j,
    {
        proof {
            assert(views_of(parts@).skip(1)[j - 1] == views_of(parts@)[j as int]);
            assert(views_of(parts@)[j as int] == parts@[j as int]@);
        }
        let field = parts[j].as_str();
        let tok: ListToken;
        if str_eq(field, "TO") {
            tok = ListToken::To;
        } else {
            let n = field.unicode_len();
            let k = find_char(field, ' ');
            if k == n {
                tok = ListToken::Course { subject: None, number: field.to_owned() };
            } else {
                let subject = field.substring_char(0, k).to_owned();
                let number = field.substring_char(k + 1, n).to_owned();
                proof {
                    assert(subject@ =~= field@.take(k as int));
                    assert(number@ =~= field@.skip(k as int + 1));
                }
                tok = ListToken::Course { subject: Some(subject), number: number };
            }
        }
        proof {
            assert(tok@ == list_token_of(views_of(parts@).skip(1)[j - 1]));
        }
        let ghost old_views = list_views(toks@);
        toks.push(tok);
        proof {
            assert(list_views(toks@) =~= old_views.push(tok@));
            assert(list_tokens_spec(views_of(parts@).skip(1))[j - 1] == tok@);
            assert(list_views(toks@) =~= list_tokens_spec(views_of(parts@).skip(1)).take(j as int));
        }
        j += 1;
    }
    proof {
        assert(list_views(toks@) =~= list_tokens_spec(views_of(parts@).skip(1)));
    }
    toks
}

/// The `i`-th field of a split line, when there are that many.
fn field_at(parts: &Vec<String>, i: usize) -> (r: Option<String>)
    ensures
        opt_view(r) == field_opt(views_of(parts@), i as int),
{
    if i < parts.len() {
        Some(parts[i].clone())
    } else {
        None
    }
}

/// Classifies one non-empty line, exactly as `classify_spec` describes.
pub fn classify(line: &str) -> (r: Node)
    ensures
        r@ == classify_spec(line@),
{
    let parts = split_on(line, '|');
    proof {
        lemma_split_nonempty(line@, '|');
        assert(views_of(parts@).len() == parts@.len());
        assert(views_of(parts@)[0] == parts@[0]@);
    }
    let tag = parts[0].as_str();
    if str_eq(tag, "GRAD") && parts.len() == 2 {
        proof {
            assert(views_of(parts@)[1] == parts@[1]@);
        }
        let inner = Node::DateLeaf(parts[1].clone());
        proof {
            assert(inner@ == NodeV::DateLeaf(parts@[1]@));
        }
        Node::GradDateSection(Box::new(inner))
    } else if str_eq(tag, "CATALOG") && parts.len() == 2 {
        proof {
            assert(views_of(parts@)[1] == parts@[1]@);
        }
        let inner = Node::CatalogNumLeaf(parts[1].clone());
        proof {
            assert(inner@ == NodeV::CatalogNumLeaf(parts@[1]@));
        }
        Node::CatalogSection(Box::new(inner))
    } else if str_eq(tag, "MAJOR") && parts.len() == 2 {
        proof {
            assert(views_of(parts@)[1] == parts@[1]@);
        }
        Node::MajorBlock(parts[1].clone())
    } else if str_eq(tag, "NUPATH") {
        let inner = Node::NuPathNode(nu_tokens(&parts));
        proof {
            assert(inner@ == NodeV::NuPathNode(nu_tokens_spec(views_of(parts@).skip(1))));
        }
        Node::CourseOption(Box::new(inner))
    } else if str_eq(tag, "LIST") {
        let inner = Node::CourseListNode(list_tokens(&parts));
        proof {
            assert(inner@ == NodeV::CourseListNode(list_tokens_spec(views_of(parts@).skip(1))));
        }
        Node::CourseOption(Box::new(inner))
    } else if str_eq(tag, "COURSE") {
        let fields = CourseFields {
            year: field_at(&parts, 1),
            course: field_at(&parts, 2),
            credits: field_at(&parts, 3),
            name: field_at(&parts, 4),
            maybe_ip: field_at(&parts, 5),
        };
        proof {
            assert(fields@ == course_fields_spec(views_of(parts@).skip(1)));
        }
        let inner = Node::SingleCourseNode(fields);
        proof {
            assert(inner@ == NodeV::SingleCourseNode(course_fields_spec(views_of(parts@).skip(1))));
        }
        Node::CourseOption(Box::new(inner))
    } else if str_eq(tag, "INFO") {
        let fields = InfoFields {
            earned_hours: field_at(&parts, 1),
            courses_taken: field_at(&parts, 2),
            attempted_hours: field_at(&parts, 3),
            points: field_at(&parts, 4),
            gpa: field_at(&parts, 5),
        };
        proof {
            assert(fields@ == info_fields_spec(views_of(parts@).skip(1)));
        }
        Node::InfoNode(fields)
    } else {
        Node::Unknown(line.to_owned())
    }
}

/// Splits the document into lines and classifies every non-empty one, in
/// document order, exactly as `tokenize_spec` describes.
pub fn tokenize(text: &str) -> (r: Vec<Node>)
    ensures
        node_views(r@) == tokenize_spec(text@),
{
    let lines = split_on(text, '\n');
    let mut nodes: Vec<Node> = Vec::new();
    let mut i: usize = 0;
    proof {
        assert(views_of(lines@).skip(0) =~= views_of(lines@));
        assert(node_views(nodes@) =~= Seq::<NodeV>::empty());
    }
    while i < lines.len()
        invariant
            i <= lines@.len(),
            views_of(lines@) == split_spec(text@, '\n'),
            tokenize_spec(text@) == node_views(nodes@) + tokenize_lines(
                views_of(lines@).skip(i as int),
            ),
        decreases lines.len() - i,
    {
        proof {
            assert(views_of(lines@).skip(i as int)[0] == views_of(lines@)[i as int]);
            assert(views_of(lines@)[i as int] == lines@[i as int]@);
            assert(views_of(lines@).skip(i as int).skip(1) =~= views_of(lines@).skip(i as int + 1));
        }
        if lines[i].as_str().unicode_len() > 0 {
            let node = classify(lines[i].as_str());
            let ghost before = node_views(nodes@);
            let ghost nv = node@;
            nodes.push(node);
            proof {
                assert(node_views(nodes@) =~= before.push(nv));
                assert(before.push(nv) =~= before + seq![nv]);
            }
        }
        i += 1;
    }
    proof {
        assert(views_of(lines@).skip(lines@.len() as int) =~= Seq::<Seq<char>>::empty());
    }
    nodes
}

} // verus!
