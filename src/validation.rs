use vstd::prelude::*;

use crate::handlers::StatusCode;
use crate::models::{CreateLabel, CreateTodo, UpdateTodo};

verus! {

/// Field rules of a payload type.
pub trait Validate {
    /// One entry per broken rule, each written `field: message`, in field order.
    spec fn failures(&self) -> Seq<Seq<char>>;

    fn validate(&self) -> (r: Result<(), Vec<String>>)
        ensures
            r is Ok <==> self.failures().len() == 0,
            r matches Err(m) ==> m@.map_values(|s: String| s@) == self.failures(),
    ;
}

/// The failure entries joined with `, `.
pub open spec fn join_failures(ms: Seq<Seq<char>>) -> Seq<char>
    decreases ms.len(),
{
    if ms.len() == 0 {
        Seq::empty()
    } else if ms.len() == 1 {
        ms[0]
    } else {
        join_failures(ms.drop_last()) + seq![',', ' '] + ms.last()
    }
}

/// The diagnostic of a payload that breaks its rules.
pub open spec fn validation_diagnostic(ms: Seq<Seq<char>>) -> Seq<char> {
    "validation error: ["@ + join_failures(ms) + "]"@
}

/// The diagnostic of a body that could not be parsed.
pub open spec fn parse_diagnostic(parser_message: Seq<char>) -> Seq<char> {
    "json parse error: "@ + parser_message
}

/// The failure entries of a label name: it must hold 1 to 255 characters.
pub open spec fn label_name_failures(name: Seq<char>) -> Seq<Seq<char>> {
    if name.len() < 1 {
        seq!["name: name is required"@]
    } else if name.len() > 255 {
        seq!["name: name is too long"@]
    } else {
        Seq::empty()
    }
}

/// A label name is refused when empty, accepted at 255 characters and
/// refused again at 256.
pub proof fn lemma_label_name_bounds(name: Seq<char>)
    ensures
        name.len() == 0 ==> label_name_failures(name).len() > 0,
        name.len() == 255 ==> label_name_failures(name).len() == 0,
        name.len() == 256 ==> label_name_failures(name).len() > 0,
        1 <= name.len() <= 255 <==> label_name_failures(name).len() == 0,
{
}

/// Relies on validator::validate_length: for a string it counts characters
/// and checks them against each bound that is given.
#[verifier::external_body]
fn length_within(s: &String, min: Option<u64>, max: Option<u64>) -> (r: bool)
    ensures
        r == ((min matches Some(lo) ==> lo <= s@.len()) && (max matches Some(hi) ==> s@.len()
            <= hi)),
{
    validator::validate_length(s, min, max, None)
}

impl Validate for CreateLabel {
    open spec fn failures(&self) -> Seq<Seq<char>> {
        label_name_failures(self.name@)
    }

    fn validate(&self) -> (r: Result<(), Vec<String>>) {
        let mut failures: Vec<String> = Vec::new();
        if !length_within(&self.name, Some(1), None) {
            failures.push(String::from_str("name: name is required"));
        }
        if !length_within(&self.name, None, Some(255)) {
            failures.push(String::from_str("name: name is too long"));
        }
        if failures.len() == 0 {
            Ok(())
        } else {
            assert(failures@.map_values(|s: String| s@) =~= self.failures());
            Err(failures)
        }
    }
}

impl Validate for CreateTodo {
    open spec fn failures(&self) -> Seq<Seq<char>> {
        Seq::empty()
    }

    fn validate(&self) -> (r: Result<(), Vec<String>>) {
        Ok(())
    }
}

impl Validate for UpdateTodo {
    open spec fn failures(&self) -> Seq<Seq<char>> {
        Seq::empty()
    }

    fn validate(&self) -> (r: Result<(), Vec<String>>) {
        Ok(())
    }
}

/// Why a request body was turned away; both are client errors.
#[derive(Debug, PartialEq, Eq)]
pub enum Rejection {
    /// The body is not a well-formed value of the payload type.
    MalformedBody(String),
    /// The body parsed, but broke the payload's field rules.
    ValidationFailed(String),
}

impl Rejection {
    /// Both kinds are client errors.
    pub fn status(&self) -> (r: StatusCode)
        ensures
            r == StatusCode::BadRequest,
    {
        StatusCode::BadRequest
    }

    /// The diagnostic sent back to the client.
    pub fn message(&self) -> (r: &String)
        ensures
            r == match self {
                Rejection::MalformedBody(m) => m,
                Rejection::ValidationFailed(m) => m,
            },
    {
        match self {
            Rejection::MalformedBody(m) => m,
            Rejection::ValidationFailed(m) => m,
        }
    }
}

/// Joins failure entries with `, `.
fn join(ms: &Vec<String>) -> (r: String)
    ensures
        r@ == join_failures(ms@.map_values(|s: String| s@)),
{
    let ghost views = ms@.map_values(|s: String| s@);
    let mut out = String::new();
    let mut i: usize = 0;
    while i < ms.len()
        invariant
            i <= ms@.len(),
            views == ms@.map_values(|s: String| s@),
            out@ == join_failures(views.subrange(0, i as int)),
        decreases ms@.len() - i,
    {
        let ghost sub = views.subrange(0, i + 1);
        assert(sub.drop_last() == views.subrange(0, i as int));
        assert(sub.last() == ms@[i as int]@);
        proof {
            reveal_strlit(", ");
            assert(", "@ =~= seq![',', ' ']);
        }
        if i > 0 {
            out.append(", ");
        }
        out.append(ms[i].as_str());
        i = i + 1;
    }
    assert(views.subrange(0, ms@.len() as int) == views);
    out
}

/// A payload that has been parsed and has passed its field rules.
#[derive(Debug)]
pub struct ValidatedJson<T>(pub T);

impl<T: Validate> ValidatedJson<T> {
    /// Stands between a request body and a handler. It takes the result
    /// of parsing the body (the value, or the parser's diagnostic), passes on
    /// a value that keeps its rules and turns away everything else.
    pub fn from_parsed(parsed: Result<T, String>) -> (r: Result<ValidatedJson<T>, Rejection>)
        ensures
            match parsed {
                Err(m) => r matches Err(Rejection::MalformedBody(d)) && d@ == parse_diagnostic(m@),
                Ok(v) => if v.failures().len() == 0 {
                    r == Ok::<ValidatedJson<T>, Rejection>(ValidatedJson(v))
                } else {
                    r matches Err(Rejection::ValidationFailed(d)) && d@ == validation_diagnostic(
                        v.failures(),
                    )
                },
            },
    {
        match parsed {
            Err(m) => {
                let d = String::from_str("json parse error: ").concat(m.as_str());
                Err(Rejection::MalformedBody(d))
            },
            Ok(v) => match v.validate() {
                Ok(()) => Ok(ValidatedJson(v)),
                Err(failures) => {
                    let d = String::from_str("validation error: [").concat(
                        join(&failures).as_str(),
                    ).concat("]");
                    Err(Rejection::ValidationFailed(d))
                },
            },
        }
    }
}

} // verus!
