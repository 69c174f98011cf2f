//! The paths under which the records are served.
//!
//! Each kind has a name in a path, `/task/7` for the task with the id 7,
//! and each kind but the theme a name for the list of its records under
//! their parent, `/project/3/tasks`.

use crate::model::ResourceKind;
use vstd::prelude::*;

verus! {

/// The character that stands for a digit.
pub open spec fn digit(d: int) -> char {
    if d == 0 {
        '0'
    } else if d == 1 {
        '1'
    } else if d == 2 {
        '2'
    } else if d == 3 {
        '3'
    } else if d == 4 {
        '4'
    } else if d == 5 {
        '5'
    } else if d == 6 {
        '6'
    } else if d == 7 {
        '7'
    } else if d == 8 {
        '8'
    } else {
        '9'
    }
}

/// The digits of a natural number in base ten, without leading zeros.
pub open spec fn digits(n: nat) -> Seq<char>
    decreases n,
{
    if n < 10 {
        seq![digit(n as int)]
    } else {
        digits(n / 10).push(digit((n % 10) as int))
    }
}

/// An integer in base ten: a minus sign before the digits of a negative
/// one.
pub open spec fn decimal(n: int) -> Seq<char> {
    if n < 0 {
        seq!['-'] + digits((-n) as nat)
    } else {
        digits(n as nat)
    }
}

/// The text that stands for a digit.
fn digit_str(d: u32) -> (text: &'static str)
    requires
        d < 10,
    ensures
        text@ == seq![digit(d as int)],
{
    proof {
        reveal_strlit("0");
        reveal_strlit("1");
        reveal_strlit("2");
        reveal_strlit("3");
        reveal_strlit("4");
        reveal_strlit("5");
        reveal_strlit("6");
        reveal_strlit("7");
        reveal_strlit("8");
        reveal_strlit("9");
    }
    let text = if d == 0 {
        "0"
    } else if d == 1 {
        "1"
    } else if d == 2 {
        "2"
    } else if d == 3 {
        "3"
    } else if d == 4 {
        "4"
    } else if d == 5 {
        "5"
    } else if d == 6 {
        "6"
    } else if d == 7 {
        "7"
    } else if d == 8 {
        "8"
    } else {
        "9"
    };
    assert(text@ =~= seq![digit(d as int)]);
    text
}

/// Writes the digits of `n` behind what `out` holds.
fn push_digits(out: &mut String, n: u32)
    ensures
        final(out)@ == old(out)@ + digits(n as nat),
    decreases n,
{
    if n >= 10 {
        push_digits(out, n / 10);
    }
    out.append(digit_str(n % 10));
    proof {
        if n >= 10 {
            assert(old(out)@ + digits((n / 10) as nat) + seq![digit((n % 10) as int)] =~= old(
                out,
            )@ + digits((n / 10) as nat).push(digit((n % 10) as int)));
        }
    }
}

/// Writes `n` in base ten behind what `out` holds.
pub fn push_decimal(out: &mut String, n: i32)
    ensures
        final(out)@ == old(out)@ + decimal(n as int),
{
    if n < 0 {
        proof {
            reveal_strlit("-");
            assert("-"@ =~= seq!['-']);
        }
        out.append("-");
        let magnitude: i64 = -(n as i64);
        push_digits(out, magnitude as u32);
        proof {
            assert(old(out)@ + seq!['-'] + digits((-n) as nat) =~= old(out)@ + (seq!['-'] + digits(
                (-n) as nat,
            )));
        }
    } else {
        push_digits(out, n as u32);
    }
}

impl ResourceKind {
    /// The name of the kind in a path.
    pub open spec fn spec_segment(self) -> Seq<char> {
        match self {
            ResourceKind::Theme => "theme"@,
            ResourceKind::Objective => "objective"@,
            ResourceKind::KeyResult => "keyresult"@,
            ResourceKind::Initiative => "initiative"@,
            ResourceKind::Project => "project"@,
            ResourceKind::Task => "task"@,
            ResourceKind::Measurement => "measure"@,
        }
    }

    /// The name of the kind in a path.
    pub fn segment(self) -> (name: &'static str)
        ensures
            name@ == self.spec_segment(),
    {
        match self {
            ResourceKind::Theme => "theme",
            ResourceKind::Objective => "objective",
            ResourceKind::KeyResult => "keyresult",
            ResourceKind::Initiative => "initiative",
            ResourceKind::Project => "project",
            ResourceKind::Task => "task",
            ResourceKind::Measurement => "measure",
        }
    }

    /// The name, in a path, of the list of the records of the kind.
    pub open spec fn spec_listing(self) -> Seq<char> {
        match self {
            ResourceKind::Theme => "theme"@,
            ResourceKind::Objective => "objectives"@,
            ResourceKind::KeyResult => "keyresults"@,
            ResourceKind::Initiative => "initiatives"@,
            ResourceKind::Project => "projects"@,
            ResourceKind::Task => "tasks"@,
            ResourceKind::Measurement => "measures"@,
        }
    }

    /// The name, in a path, of the list of the records of the kind.
    pub fn listing(self) -> (name: &'static str)
        ensures
            name@ == self.spec_listing(),
    {
        match self {
            ResourceKind::Theme => "theme",
            ResourceKind::Objective => "objectives",
            ResourceKind::KeyResult => "keyresults",
            ResourceKind::Initiative => "initiatives",
            ResourceKind::Project => "projects",
            ResourceKind::Task => "tasks",
            ResourceKind::Measurement => "measures",
        }
    }

    /// The kind that a name in a path stands for, if it stands for one.
    pub open spec fn spec_from_segment(name: Seq<char>) -> Option<ResourceKind> {
        if name == "theme"@ {
            Some(ResourceKind::Theme)
        } else if name == "objective"@ {
            Some(ResourceKind::Objective)
        } else if name == "keyresult"@ {
            Some(ResourceKind::KeyResult)
        } else if name == "initiative"@ {
            Some(ResourceKind::Initiative)
        } else if name == "project"@ {
            Some(ResourceKind::Project)
        } else if name == "task"@ {
            Some(ResourceKind::Task)
        } else if name == "measure"@ {
            Some(ResourceKind::Measurement)
        } else {
            None
        }
    }

    /// The kind that a name in a path stands for, if it stands for one.
    pub fn from_segment(name: &str) -> (kind: Option<ResourceKind>)
        ensures
            kind == ResourceKind::spec_from_segment(name@),
    {
        let name = String::from_str(name);
        if name == String::from_str("theme") {
            Some(ResourceKind::Theme)
        } else if name == String::from_str("objective") {
            Some(ResourceKind::Objective)
        } else if name == String::from_str("keyresult") {
            Some(ResourceKind::KeyResult)
        } else if name == String::from_str("initiative") {
            Some(ResourceKind::Initiative)
        } else if name == String::from_str("project") {
            Some(ResourceKind::Project)
        } else if name == String::from_str("task") {
            Some(ResourceKind::Task)
        } else if name == String::from_str("measure") {
            Some(ResourceKind::Measurement)
        } else {
            None
        }
    }

    /// Every name of a kind stands for that kind.
    pub proof fn lemma_segment_names_kind(self)
        ensures
            ResourceKind::spec_from_segment(self.spec_segment()) == Some(self),
    {
        reveal_strlit("theme");
        reveal_strlit("objective");
        reveal_strlit("keyresult");
        reveal_strlit("initiative");
        reveal_strlit("project");
        reveal_strlit("task");
        reveal_strlit("measure");
        assert("theme"@.len() == 5);
        assert("objective"@.len() == 9);
        assert("keyresult"@[0] == 'k');
        assert("initiative"@.len() == 10);
        assert("project"@.len() == 7);
        assert("task"@.len() == 4);
        assert("measure"@[0] == 'm');
        assert("objective"@[0] == 'o');
        assert("project"@[0] == 'p');
    }
}

/// The path of the list in which a new record of the kind appears: the
/// root for a theme, and for every other kind the list of its kind under
/// the parent, `/theme/4/objectives` for an objective under the theme 4.
pub open spec fn spec_listing_path(kind: ResourceKind, parent: Option<i32>) -> Seq<char> {
    match kind.spec_parent() {
        None => "/"@,
        Some(parent_kind) => "/"@ + parent_kind.spec_segment() + "/"@ + decimal(
            parent.unwrap() as int,
        ) + "/"@ + kind.spec_listing(),
    }
}

/// The path of the list in which a new record of the kind appears.
pub fn listing_path(kind: ResourceKind, parent: Option<i32>) -> (path: String)
    requires
        kind.spec_parent() is Some ==> parent is Some,
    ensures
        path@ == spec_listing_path(kind, parent),
{
    let mut path = String::from_str("/");
    match kind.parent() {
        None => {},
        Some(parent_kind) => {
            path.append(parent_kind.segment());
            path.append("/");
            push_decimal(&mut path, parent.unwrap());
            path.append("/");
            path.append(kind.listing());
        },
    }
    path
}

} // verus!
