//! Variables, of which the secret ones are never shown.

use vstd::prelude::*;
use vstd::string::*;

use crate::codec::{uuid_text, Id, NIL};
use crate::error::{bad_request, not_found, AppError};
use crate::text::owned;
use crate::time::Moment;

verus! {

/// A value that checks can refer to. That of a secret is kept elsewhere.
#[derive(Clone, Debug)]
pub struct Variable {
    pub id: Id,
    pub org_id: Id,
    pub key: String,
    pub is_secret: bool,
    pub value: Option<String>,
    pub updated_at: Moment,
    pub updated_by: Option<Id>,
}

/// A variable to be made.
#[derive(Clone, Debug)]
pub struct CreateVariableBody {
    pub key: String,
    pub is_secret: bool,
    pub value: String,
}

impl Variable {
    /// Whether a variable shows no secret.
    pub open spec fn well_formed(self) -> bool {
        self.is_secret ==> self.value is None
    }
}

/// Makes a variable, unless its key was found to be none, for the reason given.
pub fn create_variable(
    body: CreateVariableBody,
    key_check: Result<(), String>,
    id: Id,
    now: Moment,
) -> (r: Result<Variable, AppError>)
    ensures
        match r {
            Ok(v) => {
                &&& key_check is Ok
                &&& v.well_formed()
                &&& v == (Variable {
                    id,
                    org_id: 0,
                    key: body.key,
                    is_secret: body.is_secret,
                    value: if body.is_secret {
                        None
                    } else {
                        Some(body.value)
                    },
                    updated_at: now,
                    updated_by: None,
                })
            },
            Err(e) => key_check matches Err(reason) && crate::error::is_bad_request(
                e,
                "INVALID_VAR_KEY"@,
                reason@,
            ),
        },
{
    match key_check {
        Err(reason) => Err(bad_request("INVALID_VAR_KEY", reason)),
        Ok(_) => Ok(
            Variable {
                id,
                org_id: NIL,
                key: body.key,
                is_secret: body.is_secret,
                value: if body.is_secret {
                    None
                } else {
                    Some(body.value)
                },
                updated_at: now,
                updated_by: None,
            },
        ),
    }
}

/// The first of `variables` with this identifier, from place `i` on.
pub open spec fn variable_of(variables: Seq<Variable>, id: Id, i: nat) -> Option<Variable>
    decreases variables.len() - i,
{
    if i >= variables.len() {
        None
    } else if variables[i as int].id == id {
        Some(variables[i as int])
    } else {
        variable_of(variables, id, i + 1)
    }
}

/// `e` is the error for a variable that is not there.
pub open spec fn is_missing_variable(e: AppError, id: Id) -> bool {
    crate::error::is_not_found(
        e,
        "VARIABLE_NOT_FOUND"@,
        "variable "@ + crate::codec::id_text(id) + " not found"@,
    )
}

/// The variable with this identifier.
pub fn get_variable(variables: Vec<Variable>, id: Id) -> (r: Result<Variable, AppError>)
    ensures
        match r {
            Ok(v) => variable_of(variables@, id, 0) == Some(v),
            Err(e) => variable_of(variables@, id, 0) is None && is_missing_variable(e, id),
        },
{
    let mut all = variables;
    let mut i: usize = 0;
    while i < all.len() && all[i].id != id
        invariant
            i <= all.len(),
            variable_of(all@, id, 0) == variable_of(all@, id, i as nat),
        decreases all.len() - i,
    {
        i += 1;
    }
    if i == all.len() {
        let mut message = owned("variable ");
        message.append(uuid_text(id).as_str());
        message.append(" not found");
        return Err(not_found("VARIABLE_NOT_FOUND", message));
    }
    Ok(all.remove(i))
}

/// A variable with another value, at `now`; a secret keeps showing none.
pub open spec fn updated_variable(v: Variable, value: Option<String>, now: Moment) -> Variable {
    Variable {
        value: match value {
            Some(text) => if v.is_secret {
                v.value
            } else {
                Some(text)
            },
            None => v.value,
        },
        updated_at: now,
        ..v
    }
}

/// Changes the value of the variable with this identifier.
pub fn update_variable(
    variables: Vec<Variable>,
    id: Id,
    value: Option<String>,
    now: Moment,
) -> (r: Result<Variable, AppError>)
    ensures
        match r {
            Ok(v) => variable_of(variables@, id, 0) matches Some(found) && v
                == updated_variable(found, value, now),
            Err(e) => variable_of(variables@, id, 0) is None && is_missing_variable(e, id),
        },
{
    match get_variable(variables, id) {
        Err(e) => Err(e),
        Ok(found) => {
            let mut v = found;
            if let Some(text) = value {
                if !v.is_secret {
                    v.value = Some(text);
                }
            }
            v.updated_at = now;
            Ok(v)
        },
    }
}

/// A secret is shown neither when it is made nor after any change of it.
pub proof fn law_secrets_stay_hidden(v: Variable, value: Option<String>, now: Moment)
    requires
        v.well_formed(),
    ensures
        updated_variable(v, value, now).well_formed(),
        v.is_secret ==> updated_variable(v, value, now).value is None,
{
}

} // verus!
