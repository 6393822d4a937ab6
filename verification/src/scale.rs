//! The two ordinal scales of a sleep session and the codes under which their
//! values are persisted.
//!
//! The codes are fixed by the tables in this file, never by the position of
//! a variant in its enum: stored data stays readable when variants move.

use vstd::prelude::*;
use vstd::string::StringExecFns;

verus! {

/// How the night felt, from worst to best.
#[derive(Clone, Copy, Debug, PartialEq, Eq, Structural)]
pub enum Quality {
    Devastation,
    Terrible,
    Blah,
    Okay,
    Perfection,
}

/// How strenuous the day before was, from least to most.
#[derive(Clone, Copy, Debug, PartialEq, Eq, Structural)]
pub enum Exertion {
    Lazy,
    Normal,
    Exhausted,
}

impl Quality {
    /// The code under which a quality is persisted.
    pub open spec fn code(self) -> int {
        match self {
            Quality::Devastation => -2,
            Quality::Terrible => -1,
            Quality::Blah => 0,
            Quality::Okay => 1,
            Quality::Perfection => 2,
        }
    }

    /// The name under which a quality is offered for choice.
    pub open spec fn name(self) -> Seq<char> {
        match self {
            Quality::Devastation => "Devastation"@,
            Quality::Terrible => "Terrible"@,
            Quality::Blah => "Blah"@,
            Quality::Okay => "Okay"@,
            Quality::Perfection => "Perfection"@,
        }
    }

    /// The qualities in the order in which they are offered, worst first.
    pub open spec fn scale() -> Seq<Quality> {
        seq![
            Quality::Devastation,
            Quality::Terrible,
            Quality::Blah,
            Quality::Okay,
            Quality::Perfection,
        ]
    }

    /// The code under which this quality is persisted.
    pub fn db_value(&self) -> (code: i8)
        ensures
            code == self.code(),
    {
        match self {
            Quality::Devastation => -2,
            Quality::Terrible => -1,
            Quality::Blah => 0,
            Quality::Okay => 1,
            Quality::Perfection => 2,
        }
    }

    /// The name under which this quality is offered for choice.
    pub fn label(&self) -> (label: String)
        ensures
            label@ == self.name(),
    {
        match self {
            Quality::Devastation => String::from_str("Devastation"),
            Quality::Terrible => String::from_str("Terrible"),
            Quality::Blah => String::from_str("Blah"),
            Quality::Okay => String::from_str("Okay"),
            Quality::Perfection => String::from_str("Perfection"),
        }
    }

    /// All qualities in the order in which they are offered, worst first.
    pub fn all() -> (all: Vec<Quality>)
        ensures
            all@ == Quality::scale(),
    {
        let mut all: Vec<Quality> = Vec::new();
        all.push(Quality::Devastation);
        all.push(Quality::Terrible);
        all.push(Quality::Blah);
        all.push(Quality::Okay);
        all.push(Quality::Perfection);
        assert(all@ =~= Quality::scale());
        all
    }

    /// The quality that a prompt offers first.
    pub fn preselected() -> (quality: Quality)
        ensures
            quality == Quality::Okay,
    {
        Quality::Okay
    }
}

impl Exertion {
    /// The code under which an exertion is persisted.
    pub open spec fn code(self) -> int {
        match self {
            Exertion::Lazy => -1,
            Exertion::Normal => 0,
            Exertion::Exhausted => 1,
        }
    }

    /// The name under which an exertion is offered for choice.
    pub open spec fn name(self) -> Seq<char> {
        match self {
            Exertion::Lazy => "Lazy"@,
            Exertion::Normal => "Normal"@,
            Exertion::Exhausted => "Exhausted"@,
        }
    }

    /// The exertions in the order in which they are offered, least first.
    pub open spec fn scale() -> Seq<Exertion> {
        seq![Exertion::Lazy, Exertion::Normal, Exertion::Exhausted]
    }

    /// The code under which this exertion is persisted.
    pub fn db_value(&self) -> (code: i8)
        ensures
            code == self.code(),
    {
        match self {
            Exertion::Lazy => -1,
            Exertion::Normal => 0,
            Exertion::Exhausted => 1,
        }
    }

    /// The name under which this exertion is offered for choice.
    pub fn label(&self) -> (label: String)
        ensures
            label@ == self.name(),
    {
        match self {
            Exertion::Lazy => String::from_str("Lazy"),
            Exertion::Normal => String::from_str("Normal"),
            Exertion::Exhausted => String::from_str("Exhausted"),
        }
    }

    /// All exertions in the order in which they are offered, least first.
    pub fn all() -> (all: Vec<Exertion>)
        ensures
            all@ == Exertion::scale(),
    {
        let mut all: Vec<Exertion> = Vec::new();
        all.push(Exertion::Lazy);
        all.push(Exertion::Normal);
        all.push(Exertion::Exhausted);
        assert(all@ =~= Exertion::scale());
        all
    }

    /// The exertion that a prompt offers first.
    pub fn preselected() -> (exertion: Exertion)
        ensures
            exertion == Exertion::Normal,
    {
        Exertion::Normal
    }
}

/// Every quality stands on its scale exactly once, at the place that its
/// code gives: the codes rise by one along the scale, from -2.
pub proof fn lemma_quality_codes_follow_scale()
    ensures
        Quality::scale().len() == 5,
        forall|i: int| 0 <= i < 5 ==> (#[trigger] Quality::scale()[i]).code() == i - 2,
        forall|q: Quality| -2 <= q.code() <= 2 && Quality::scale()[q.code() + 2] == q,
{
}

/// Every exertion stands on its scale exactly once, at the place that its
/// code gives: the codes rise by one along the scale, from -1.
pub proof fn lemma_exertion_codes_follow_scale()
    ensures
        Exertion::scale().len() == 3,
        forall|i: int| 0 <= i < 3 ==> (#[trigger] Exertion::scale()[i]).code() == i - 1,
        forall|e: Exertion| -1 <= e.code() <= 1 && Exertion::scale()[e.code() + 1] == e,
{
}

/// Two qualities with the same code are the same quality, and so for
/// exertions: a persisted code names one value.
pub proof fn lemma_codes_are_distinct(a: Quality, b: Quality, c: Exertion, d: Exertion)
    ensures
        a.code() == b.code() ==> a == b,
        c.code() == d.code() ==> c == d,
{
}

} // verus!
