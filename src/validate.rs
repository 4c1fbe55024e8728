use vstd::prelude::*;
use vstd::string::StrSliceExecFns;

use crate::model::{CreateLabel, CreateTodo, UpdateTodo};

verus! {

/// The most characters a todo's text or a label's name may hold.
pub const MAX_TEXT_LEN: usize = 100;

/// HTTP status of a body that does not decode into the expected shape.
pub const BAD_REQUEST: u16 = 400;

/// HTTP status of a decoded body that breaks a field constraint.
pub const UNPROCESSABLE_ENTITY: u16 = 422;

/// The constrained field of a payload.
#[derive(Debug, Clone, Copy, PartialEq, Eq, Structural)]
pub enum Field {
    Text,
    Name,
}

/// A broken field constraint.
#[derive(Debug, Clone, Copy, PartialEq, Eq, Structural)]
pub enum Violation {
    Empty(Field),
    TooLong(Field),
}

/// Why a request body was turned away before reaching a repository.
#[derive(Debug, Clone, PartialEq, Eq)]
pub enum Rejection {
    MalformedBody,
    ValidationFailed(Vec<Violation>),
}

/// A constrained field is accepted when it holds 1 to `MAX_TEXT_LEN`
/// characters.
pub open spec fn text_accepted(s: Seq<char>) -> bool {
    0 < s.len() <= MAX_TEXT_LEN
}

/// The constraints that a field's characters break.
pub open spec fn violations(field: Field, s: Seq<char>) -> Seq<Violation> {
    if s.len() == 0 {
        seq![Violation::Empty(field)]
    } else if s.len() > MAX_TEXT_LEN {
        seq![Violation::TooLong(field)]
    } else {
        Seq::empty()
    }
}

/// The status code that answers a rejection.
pub open spec fn rejection_status(r: Rejection) -> u16 {
    match r {
        Rejection::MalformedBody => BAD_REQUEST,
        Rejection::ValidationFailed(_) => UNPROCESSABLE_ENTITY,
    }
}

impl Rejection {
    pub fn status(&self) -> (r: u16)
        ensures
            r == rejection_status(*self),
    {
        match self {
            Rejection::MalformedBody => BAD_REQUEST,
            Rejection::ValidationFailed(_) => UNPROCESSABLE_ENTITY,
        }
    }
}

/// The constraints that the field's value breaks, if any.
pub fn check_length(field: Field, value: &String) -> (r: Vec<Violation>)
    ensures
        r@ == violations(field, value@),
{
    let n = value.as_str().unicode_len();
    let mut r: Vec<Violation> = Vec::new();
    if n == 0 {
        r.push(Violation::Empty(field));
    } else if n > MAX_TEXT_LEN {
        r.push(Violation::TooLong(field));
    }
    assert(r@ =~= violations(field, value@));
    r
}

/// Lets a decoded todo-creation body through when its text is accepted.
/// `None` stands for a body that did not decode.
pub fn validated_create_todo(decoded: Option<CreateTodo>) -> (r: Result<CreateTodo, Rejection>)
    ensures
        match decoded {
            None => r == Err::<CreateTodo, Rejection>(Rejection::MalformedBody),
            Some(p) => if text_accepted(p.text@) {
                r == Ok::<CreateTodo, Rejection>(p)
            } else {
                r matches Err(Rejection::ValidationFailed(v)) && v@ == violations(Field::Text, p.text@)
            },
        },
{
    match decoded {
        None => Err(Rejection::MalformedBody),
        Some(p) => {
            let v = check_length(Field::Text, &p.text);
            if v.len() == 0 {
                Ok(p)
            } else {
                Err(Rejection::ValidationFailed(v))
            }
        },
    }
}

/// Lets a decoded todo-update body through when its text is accepted.
/// `None` stands for a body that did not decode.
pub fn validated_update_todo(decoded: Option<UpdateTodo>) -> (r: Result<UpdateTodo, Rejection>)
    ensures
        match decoded {
            None => r == Err::<UpdateTodo, Rejection>(Rejection::MalformedBody),
            Some(p) => if text_accepted(p.text@) {
                r == Ok::<UpdateTodo, Rejection>(p)
            } else {
                r matches Err(Rejection::ValidationFailed(v)) && v@ == violations(Field::Text, p.text@)
            },
        },
{
    match decoded {
        None => Err(Rejection::MalformedBody),
        Some(p) => {
            let v = check_length(Field::Text, &p.text);
            if v.len() == 0 {
                Ok(p)
            } else {
                Err(Rejection::ValidationFailed(v))
            }
        },
    }
}

/// Lets a decoded label-creation body through when its name is accepted.
/// `None` stands for a body that did not decode.
pub fn validated_create_label(decoded: Option<CreateLabel>) -> (r: Result<CreateLabel, Rejection>)
    ensures
        match decoded {
            None => r == Err::<CreateLabel, Rejection>(Rejection::MalformedBody),
            Some(p) => if text_accepted(p.name@) {
                r == Ok::<CreateLabel, Rejection>(p)
            } else {
                r matches Err(Rejection::ValidationFailed(v)) && v@ == violations(Field::Name, p.name@)
            },
        },
{
    match decoded {
        None => Err(Rejection::MalformedBody),
        Some(p) => {
            let v = check_length(Field::Name, &p.name);
            if v.len() == 0 {
                Ok(p)
            } else {
                Err(Rejection::ValidationFailed(v))
            }
        },
    }
}

/// An empty field breaks exactly the non-empty constraint, so its request is
/// turned away as `ValidationFailed`; every value of 1 to `MAX_TEXT_LEN` characters breaks
/// none and is let through.
pub proof fn law_text_gate(field: Field, s: Seq<char>)
    ensures
        s.len() == 0 ==> !text_accepted(s) && violations(field, s) == seq![Violation::Empty(field)],
        0 < s.len() <= MAX_TEXT_LEN ==> text_accepted(s) && violations(field, s).len() == 0,
{
}

} // verus!
