//! The parse tree of an audit document: one tagged variant per grammar
//! construct, so that the transformer's dispatch is an exhaustive match.
//! Each node carries the raw text of its fields; the extractors turn that
//! text into typed values.

use vstd::prelude::*;

verus! {

/// One token of an NUPath line: a completion-status code, a category code,
/// or other text the extractor ignores.
#[derive(Debug, Clone)]
pub enum NuToken {
    Status(String),
    Id(String),
    Other(String),
}

/// The view of an NUPath token.
pub enum NuTokenV {
    Status(Seq<char>),
    Id(Seq<char>),
    Other(Seq<char>),
}

impl View for NuToken {
    type V = NuTokenV;

    open spec fn view(&self) -> NuTokenV {
        match self {
            NuToken::Status(s) => NuTokenV::Status(s@),
            NuToken::Id(s) => NuTokenV::Id(s@),
            NuToken::Other(s) => NuTokenV::Other(s@),
        }
    }
}

/// The views of a sequence of NUPath tokens.
pub open spec fn nu_views(v: Seq<NuToken>) -> Seq<NuTokenV> {
    v.map_values(|t: NuToken| t@)
}

/// One token of a still-required course list: a course item with its
/// optional explicit subject, or the range word joining two items.
#[derive(Debug, Clone)]
pub enum ListToken {
    Course { subject: Option<String>, number: String },
    To,
}

/// The view of a course-list token.
pub enum ListTokenV {
    Course { subject: Option<Seq<char>>, number: Seq<char> },
    To,
}

impl View for ListToken {
    type V = ListTokenV;

    open spec fn view(&self) -> ListTokenV {
        match self {
            ListToken::Course { subject, number } => ListTokenV::Course {
                subject: match subject {
                    Some(s) => Some(s@),
                    None => None,
                },
                number: number@,
            },
            ListToken::To => ListTokenV::To,
        }
    }
}

/// The views of a sequence of course-list tokens.
pub open spec fn list_views(v: Seq<ListToken>) -> Seq<ListTokenV> {
    v.map_values(|t: ListToken| t@)
}

/// The child fields of one course line: the packed year code, the subject,
/// the credit hours, the display name, and the trailing modifier tag.
/// A field a line does not carry is absent.
#[derive(Debug, Clone)]
pub struct CourseFields {
    pub year: Option<String>,
    pub course: Option<String>,
    pub credits: Option<String>,
    pub name: Option<String>,
    pub maybe_ip: Option<String>,
}

/// The view of the fields of a course line.
pub struct CourseFieldsV {
    pub year: Option<Seq<char>>,
    pub course: Option<Seq<char>>,
    pub credits: Option<Seq<char>>,
    pub name: Option<Seq<char>>,
    pub maybe_ip: Option<Seq<char>>,
}

impl View for CourseFields {
    type V = CourseFieldsV;

    open spec fn view(&self) -> CourseFieldsV {
        CourseFieldsV {
            year: match self.year {
                Some(s) => Some(s@),
                None => None,
            },
            course: match self.course {
                Some(s) => Some(s@),
                None => None,
            },
            credits: match self.credits {
                Some(s) => Some(s@),
                None => None,
            },
            name: match self.name {
                Some(s) => Some(s@),
                None => None,
            },
            maybe_ip: match self.maybe_ip {
                Some(s) => Some(s@),
                None => None,
            },
        }
    }
}

/// The named numeric sub-fields of the summary section. A field the section
/// does not carry is absent and leaves the statistic at its default.
#[derive(Debug, Clone)]
pub struct InfoFields {
    pub earned_hours: Option<String>,
    pub courses_taken: Option<String>,
    pub attempted_hours: Option<String>,
    pub points: Option<String>,
    pub gpa: Option<String>,
}

/// The view of the summary fields.
pub struct InfoFieldsV {
    pub earned_hours: Option<Seq<char>>,
    pub courses_taken: Option<Seq<char>>,
    pub attempted_hours: Option<Seq<char>>,
    pub points: Option<Seq<char>>,
    pub gpa: Option<Seq<char>>,
}

impl View for InfoFields {
    type V = InfoFieldsV;

    open spec fn view(&self) -> InfoFieldsV {
        InfoFieldsV {
            earned_hours: match self.earned_hours {
                Some(s) => Some(s@),
                None => None,
            },
            courses_taken: match self.courses_taken {
                Some(s) => Some(s@),
                None => None,
            },
            attempted_hours: match self.attempted_hours {
                Some(s) => Some(s@),
                None => None,
            },
            points: match self.points {
                Some(s) => Some(s@),
                None => None,
            },
            gpa: match self.gpa {
                Some(s) => Some(s@),
                None => None,
            },
        }
    }
}

/// One node of the parse tree, tagged by its grammar construct. The wrapper
/// variants hold the node they descend to; the leaf variants hold raw text;
/// the structured variants hold their tokens or fields.
#[derive(Debug)]
pub enum Node {
    /// The graduation-date section; its child is the date leaf.
    GradDateSection(Box<Node>),
    /// The catalog section; its child is the catalog-number leaf.
    CatalogSection(Box<Node>),
    /// A block of major names, one per line of its raw text.
    MajorBlock(String),
    /// The raw text of a graduation date.
    DateLeaf(String),
    /// The raw text of a catalog year.
    CatalogNumLeaf(String),
    /// A course option; its child is an NUPath line, a course list, or a
    /// single course.
    CourseOption(Box<Node>),
    /// An NUPath line.
    NuPathNode(Vec<NuToken>),
    /// A still-required course list.
    CourseListNode(Vec<ListToken>),
    /// A single completed or in-progress course line.
    SingleCourseNode(CourseFields),
    /// The summary-statistics section.
    InfoNode(InfoFields),
    /// A construct this library does not know; skipped by the transformer.
    Unknown(String),
}

/// The view of a parse-tree node.
pub enum NodeV {
    GradDateSection(Box<NodeV>),
    CatalogSection(Box<NodeV>),
    MajorBlock(Seq<char>),
    DateLeaf(Seq<char>),
    CatalogNumLeaf(Seq<char>),
    CourseOption(Box<NodeV>),
    NuPathNode(Seq<NuTokenV>),
    CourseListNode(Seq<ListTokenV>),
    SingleCourseNode(CourseFieldsV),
    InfoNode(InfoFieldsV),
    Unknown(Seq<char>),
}

impl View for Node {
    type V = NodeV;

    open spec fn view(&self) -> NodeV
        decreases self,
    {
        match self {
            Node::GradDateSection(b) => NodeV::GradDateSection(Box::new((**b).view())),
            Node::CatalogSection(b) => NodeV::CatalogSection(Box::new((**b).view())),
            Node::MajorBlock(s) => NodeV::MajorBlock(s@),
            Node::DateLeaf(s) => NodeV::DateLeaf(s@),
            Node::CatalogNumLeaf(s) => NodeV::CatalogNumLeaf(s@),
            Node::CourseOption(b) => NodeV::CourseOption(Box::new((**b).view())),
            Node::NuPathNode(v) => NodeV::NuPathNode(nu_views(v@)),
            Node::CourseListNode(v) => NodeV::CourseListNode(list_views(v@)),
            Node::SingleCourseNode(f) => NodeV::SingleCourseNode(f.view()),
            Node::InfoNode(f) => NodeV::InfoNode(f.view()),
            Node::Unknown(s) => NodeV::Unknown(s@),
        }
    }
}

/// The views of a sequence of parse-tree nodes.
pub open spec fn node_views(v: Seq<Node>) -> Seq<NodeV> {
    v.map_values(|n: Node| n@)
}

} // verus!
