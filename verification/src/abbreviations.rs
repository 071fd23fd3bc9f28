//! Closed enumerations used throughout an audit: NUPath breadth-requirement
//! categories, season codes, completion statuses, and season words. Each is
//! parsed from an exact code; unknown codes are rejected.

use vstd::prelude::*;
use crate::text::str_eq;

verus! {

/// The thirteen university-wide NUPath breadth-requirement categories,
/// identified by their fixed 2-letter codes.
#[derive(Debug, Copy, Clone, PartialEq, Eq, Structural)]
pub enum NUPath {
    ND,
    EI,
    IC,
    FQ,
    SI,
    AD,
    DD,
    ER,
    WF,
    WD,
    WI,
    EX,
    CE,
}

/// The 2-letter code that names `p`.
pub open spec fn nupath_code(p: NUPath) -> Seq<char> {
    match p {
        NUPath::ND => "ND"@,
        NUPath::EI => "EI"@,
        NUPath::IC => "IC"@,
        NUPath::FQ => "FQ"@,
        NUPath::SI => "SI"@,
        NUPath::AD => "AD"@,
        NUPath::DD => "DD"@,
        NUPath::ER => "ER"@,
        NUPath::WF => "WF"@,
        NUPath::WD => "WD"@,
        NUPath::WI => "WI"@,
        NUPath::EX => "EX"@,
        NUPath::CE => "CE"@,
    }
}

/// The category whose code is `s`, if any.
pub open spec fn nupath_from_code(s: Seq<char>) -> Option<NUPath> {
    if s == "ND"@ {
        Some(NUPath::ND)
    } else if s == "EI"@ {
        Some(NUPath::EI)
    } else if s == "IC"@ {
        Some(NUPath::IC)
    } else if s == "FQ"@ {
        Some(NUPath::FQ)
    } else if s == "SI"@ {
        Some(NUPath::SI)
    } else if s == "AD"@ {
        Some(NUPath::AD)
    } else if s == "DD"@ {
        Some(NUPath::DD)
    } else if s == "ER"@ {
        Some(NUPath::ER)
    } else if s == "WF"@ {
        Some(NUPath::WF)
    } else if s == "WD"@ {
        Some(NUPath::WD)
    } else if s == "WI"@ {
        Some(NUPath::WI)
    } else if s == "EX"@ {
        Some(NUPath::EX)
    } else if s == "CE"@ {
        Some(NUPath::CE)
    } else {
        None
    }
}

impl NUPath {
    /// Parses a category from its exact 2-letter code.
    pub fn try_from(value: &str) -> (r: Result<NUPath, String>)
        ensures
            r matches Ok(p) ==> nupath_from_code(value@) == Some(p),
            r is Err <==> nupath_from_code(value@) is None,
    {
        if str_eq(value, "ND") {
            Ok(NUPath::ND)
        } else if str_eq(value, "EI") {
            Ok(NUPath::EI)
        } else if str_eq(value, "IC") {
            Ok(NUPath::IC)
        } else if str_eq(value, "FQ") {
            Ok(NUPath::FQ)
        } else if str_eq(value, "SI") {
            Ok(NUPath::SI)
        } else if str_eq(value, "AD") {
            Ok(NUPath::AD)
        } else if str_eq(value, "DD") {
            Ok(NUPath::DD)
        } else if str_eq(value, "ER") {
            Ok(NUPath::ER)
        } else if str_eq(value, "WF") {
            Ok(NUPath::WF)
        } else if str_eq(value, "WD") {
            Ok(NUPath::WD)
        } else if str_eq(value, "WI") {
            Ok(NUPath::WI)
        } else if str_eq(value, "EX") {
            Ok(NUPath::EX)
        } else if str_eq(value, "CE") {
            Ok(NUPath::CE)
        } else {
            Err("ERROR".to_owned())
        }
    }

    /// The 2-letter code of this category, the inverse of `try_from`.
    pub fn fmt(&self) -> (r: &'static str)
        ensures
            r@ == nupath_code(*self),
    {
        match self {
            NUPath::ND => "ND",
            NUPath::EI => "EI",
            NUPath::IC => "IC",
            NUPath::FQ => "FQ",
            NUPath::SI => "SI",
            NUPath::AD => "AD",
            NUPath::DD => "DD",
            NUPath::ER => "ER",
            NUPath::WF => "WF",
            NUPath::WD => "WD",
            NUPath::WI => "WI",
            NUPath::EX => "EX",
            NUPath::CE => "CE",
        }
    }
}

/// Categories round-trip: the code of a category parses back to that
/// category, for all thirteen categories.
pub proof fn lemma_nupath_code_roundtrip(p: NUPath)
    ensures
        nupath_from_code(nupath_code(p)) == Some(p),
{
    reveal_strlit("ND");
    reveal_strlit("EI");
    reveal_strlit("IC");
    reveal_strlit("FQ");
    reveal_strlit("SI");
    reveal_strlit("AD");
    reveal_strlit("DD");
    reveal_strlit("ER");
    reveal_strlit("WF");
    reveal_strlit("WD");
    reveal_strlit("WI");
    reveal_strlit("EX");
    reveal_strlit("CE");
    assert("ND"@[0] != "EI"@[0]);
    assert("ND"@[0] != "IC"@[0]);
    assert("ND"@[0] != "FQ"@[0]);
    assert("ND"@[0] != "SI"@[0]);
    assert("ND"@[0] != "AD"@[0]);
    assert("ND"@[0] != "DD"@[0]);
    assert("ND"@[0] != "ER"@[0]);
    assert("ND"@[0] != "WF"@[0]);
    assert("ND"@[0] != "WD"@[0]);
    assert("ND"@[0] != "WI"@[0]);
    assert("ND"@[0] != "EX"@[0]);
    assert("ND"@[0] != "CE"@[0]);
    assert("EI"@[0] != "IC"@[0]);
    assert("EI"@[0] != "FQ"@[0]);
    assert("EI"@[0] != "SI"@[0]);
    assert("EI"@[0] != "AD"@[0]);
    assert("EI"@[0] != "DD"@[0]);
    assert("EI"@[1] != "ER"@[1]);
    assert("EI"@[0] != "WF"@[0]);
    assert("EI"@[0] != "WD"@[0]);
    assert("EI"@[0] != "WI"@[0]);
    assert("EI"@[1] != "EX"@[1]);
    assert("EI"@[0] != "CE"@[0]);
    assert("IC"@[0] != "FQ"@[0]);
    assert("IC"@[0] != "SI"@[0]);
    assert("IC"@[0] != "AD"@[0]);
    assert("IC"@[0] != "DD"@[0]);
    assert("IC"@[0] != "ER"@[0]);
    assert("IC"@[0] != "WF"@[0]);
    assert("IC"@[0] != "WD"@[0]);
    assert("IC"@[0] != "WI"@[0]);
    assert("IC"@[0] != "EX"@[0]);
    assert("IC"@[0] != "CE"@[0]);
    assert("FQ"@[0] != "SI"@[0]);
    assert("FQ"@[0] != "AD"@[0]);
    assert("FQ"@[0] != "DD"@[0]);
    assert("FQ"@[0] != "ER"@[0]);
    assert("FQ"@[0] != "WF"@[0]);
    assert("FQ"@[0] != "WD"@[0]);
    assert("FQ"@[0] != "WI"@[0]);
    assert("FQ"@[0] != "EX"@[0]);
    assert("FQ"@[0] != "CE"@[0]);
    assert("SI"@[0] != "AD"@[0]);
    assert("SI"@[0] != "DD"@[0]);
    assert("SI"@[0] != "ER"@[0]);
    assert("SI"@[0] != "WF"@[0]);
    assert("SI"@[0] != "WD"@[0]);
    assert("SI"@[0] != "WI"@[0]);
    assert("SI"@[0] != "EX"@[0]);
    assert("SI"@[0] != "CE"@[0]);
    assert("AD"@[0] != "DD"@[0]);
    assert("AD"@[0] != "ER"@[0]);
    assert("AD"@[0] != "WF"@[0]);
    assert("AD"@[0] != "WD"@[0]);
    assert("AD"@[0] != "WI"@[0]);
    assert("AD"@[0] != "EX"@[0]);
    assert("AD"@[0] != "CE"@[0]);
    assert("DD"@[0] != "ER"@[0]);
    assert("DD"@[0] != "WF"@[0]);
    assert("DD"@[0] != "WD"@[0]);
    assert("DD"@[0] != "WI"@[0]);
    assert("DD"@[0] != "EX"@[0]);
    assert("DD"@[0] != "CE"@[0]);
    assert("ER"@[0] != "WF"@[0]);
    assert("ER"@[0] != "WD"@[0]);
    assert("ER"@[0] != "WI"@[0]);
    assert("ER"@[1] != "EX"@[1]);
    assert("ER"@[0] != "CE"@[0]);
    assert("WF"@[1] != "WD"@[1]);
    assert("WF"@[1] != "WI"@[1]);
    assert("WF"@[0] != "EX"@[0]);
    assert("WF"@[0] != "CE"@[0]);
    assert("WD"@[1] != "WI"@[1]);
    assert("WD"@[0] != "EX"@[0]);
    assert("WD"@[0] != "CE"@[0]);
    assert("WI"@[0] != "EX"@[0]);
    assert("WI"@[0] != "CE"@[0]);
    assert("EX"@[0] != "CE"@[0]);
    match p {
        NUPath::ND => assert(nupath_from_code(nupath_code(p)) == Some(p)),
        NUPath::EI => assert(nupath_from_code(nupath_code(p)) == Some(p)),
        NUPath::IC => assert(nupath_from_code(nupath_code(p)) == Some(p)),
        NUPath::FQ => assert(nupath_from_code(nupath_code(p)) == Some(p)),
        NUPath::SI => assert(nupath_from_code(nupath_code(p)) == Some(p)),
        NUPath::AD => assert(nupath_from_code(nupath_code(p)) == Some(p)),
        NUPath::DD => assert(nupath_from_code(nupath_code(p)) == Some(p)),
        NUPath::ER => assert(nupath_from_code(nupath_code(p)) == Some(p)),
        NUPath::WF => assert(nupath_from_code(nupath_code(p)) == Some(p)),
        NUPath::WD => assert(nupath_from_code(nupath_code(p)) == Some(p)),
        NUPath::WI => assert(nupath_from_code(nupath_code(p)) == Some(p)),
        NUPath::EX => assert(nupath_from_code(nupath_code(p)) == Some(p)),
        NUPath::CE => assert(nupath_from_code(nupath_code(p)) == Some(p)),
    }
}

/// The academic seasons, by their 2-character code: fall, spring, the two
/// half summers, and the full summer term.
#[derive(Debug, Copy, Clone, PartialEq, Eq, Structural)]
pub enum Season {
    /// Fall
    FL,
    /// Spring
    SP,
    /// Summer 1
    S1,
    /// Summer 2
    S2,
    /// Full Summer Term
    SM,
}

impl Default for Season {
    /// A season field that no document line ever set reads as fall.
    fn default() -> (r: Self)
        ensures
            r == Season::FL,
    {
        Season::FL
    }
}

/// The season whose 2-character code is `s`, if any.
pub open spec fn season_from_code(s: Seq<char>) -> Option<Season> {
    if s == "FL"@ {
        Some(Season::FL)
    } else if s == "SP"@ {
        Some(Season::SP)
    } else if s == "S1"@ {
        Some(Season::S1)
    } else if s == "S2"@ {
        Some(Season::S2)
    } else if s == "SM"@ {
        Some(Season::SM)
    } else {
        None
    }
}

/// The 2-character code that names `s`.
pub open spec fn season_code(s: Season) -> Seq<char> {
    match s {
        Season::FL => "FL"@,
        Season::SP => "SP"@,
        Season::S1 => "S1"@,
        Season::S2 => "S2"@,
        Season::SM => "SM"@,
    }
}

impl Season {
    /// Parses a season from its exact 2-character code.
    pub fn try_from(value: &str) -> (r: Result<Season, String>)
        ensures
            r matches Ok(s) ==> season_from_code(value@) == Some(s),
            r is Err <==> season_from_code(value@) is None,
    {
        if str_eq(value, "FL") {
            Ok(Season::FL)
        } else if str_eq(value, "SP") {
            Ok(Season::SP)
        } else if str_eq(value, "S1") {
            Ok(Season::S1)
        } else if str_eq(value, "S2") {
            Ok(Season::S2)
        } else if str_eq(value, "SM") {
            Ok(Season::SM)
        } else {
            Err("ERROR".to_owned())
        }
    }

    /// The 2-character code of this season, the inverse of `try_from`.
    pub fn fmt(&self) -> (r: &'static str)
        ensures
            r@ == season_code(*self),
    {
        match self {
            Season::FL => "FL",
            Season::SP => "SP",
            Season::S1 => "S1",
            Season::S2 => "S2",
            Season::SM => "SM",
        }
    }
}

/// Seasons round-trip: the code of a season parses back to that season.
pub proof fn lemma_season_code_roundtrip(s: Season)
    ensures
        season_from_code(season_code(s)) == Some(s),
{
    reveal_strlit("FL");
    reveal_strlit("SP");
    reveal_strlit("S1");
    reveal_strlit("S2");
    reveal_strlit("SM");
    assert("FL"@[0] != "SP"@[0]);
    assert("FL"@[0] != "S1"@[0]);
    assert("FL"@[0] != "S2"@[0]);
    assert("FL"@[0] != "SM"@[0]);
    assert("SP"@[1] != "S1"@[1]);
    assert("SP"@[1] != "S2"@[1]);
    assert("SP"@[1] != "SM"@[1]);
    assert("S1"@[1] != "S2"@[1]);
    assert("S1"@[1] != "SM"@[1]);
    assert("S2"@[1] != "SM"@[1]);
    match s {
        Season::FL => assert(season_from_code(season_code(s)) == Some(s)),
        Season::SP => assert(season_from_code(season_code(s)) == Some(s)),
        Season::S1 => assert(season_from_code(season_code(s)) == Some(s)),
        Season::S2 => assert(season_from_code(season_code(s)) == Some(s)),
        Season::SM => assert(season_from_code(season_code(s)) == Some(s)),
    }
}

/// Completion status of a requirement, by its 2-letter code.
#[derive(Debug, Copy, Clone, PartialEq, Eq, Structural)]
pub enum Status {
    /// In Progress
    IP,
    /// Passed
    OK,
    /// Need to Take
    NO,
}

/// The status whose 2-letter code is `s`, if any.
pub open spec fn status_from_code(s: Seq<char>) -> Option<Status> {
    if s == "IP"@ {
        Some(Status::IP)
    } else if s == "OK"@ {
        Some(Status::OK)
    } else if s == "NO"@ {
        Some(Status::NO)
    } else {
        None
    }
}

/// The 2-letter code that names `s`.
pub open spec fn status_code(s: Status) -> Seq<char> {
    match s {
        Status::IP => "IP"@,
        Status::OK => "OK"@,
        Status::NO => "NO"@,
    }
}

impl Status {
    /// Parses a status from its exact 2-letter code.
    pub fn try_from(value: &str) -> (r: Result<Status, String>)
        ensures
            r matches Ok(s) ==> status_from_code(value@) == Some(s),
            r is Err <==> status_from_code(value@) is None,
    {
        if str_eq(value, "IP") {
            Ok(Status::IP)
        } else if str_eq(value, "OK") {
            Ok(Status::OK)
        } else if str_eq(value, "NO") {
            Ok(Status::NO)
        } else {
            Err("ERROR".to_owned())
        }
    }

    /// The 2-letter code of this status, the inverse of `try_from`.
    pub fn fmt(&self) -> (r: &'static str)
        ensures
            r@ == status_code(*self),
    {
        match self {
            Status::IP => "IP",
            Status::OK => "OK",
            Status::NO => "NO",
        }
    }
}

/// Statuses round-trip: the code of a status parses back to that status.
pub proof fn lemma_status_code_roundtrip(s: Status)
    ensures
        status_from_code(status_code(s)) == Some(s),
{
    reveal_strlit("IP");
    reveal_strlit("OK");
    reveal_strlit("NO");
    assert("IP"@[0] != "OK"@[0]);
    assert("IP"@[0] != "NO"@[0]);
    assert("OK"@[0] != "NO"@[0]);
    match s {
        Status::IP => assert(status_from_code(status_code(s)) == Some(s)),
        Status::OK => assert(status_from_code(status_code(s)) == Some(s)),
        Status::NO => assert(status_from_code(status_code(s)) == Some(s)),
    }
}

/// A season named by a full word rather than a 2-character code.
#[derive(Debug, Copy, Clone, PartialEq, Eq, Structural)]
pub enum SeasonWord {
    Fall,
    Spring,
    Summer1,
    Summer2,
}

/// The lower-case word that names `s`.
pub open spec fn season_word(s: SeasonWord) -> Seq<char> {
    match s {
        SeasonWord::Fall => "fall"@,
        SeasonWord::Spring => "spring"@,
        SeasonWord::Summer1 => "summer1"@,
        SeasonWord::Summer2 => "summer2"@,
    }
}

impl SeasonWord {
    /// The lower-case word of this season.
    pub fn fmt(&self) -> (r: &'static str)
        ensures
            r@ == season_word(*self),
    {
        match self {
            SeasonWord::Fall => "fall",
            SeasonWord::Spring => "spring",
            SeasonWord::Summer1 => "summer1",
            SeasonWord::Summer2 => "summer2",
        }
    }
}

} // verus!
