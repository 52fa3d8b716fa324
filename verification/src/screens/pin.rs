//! The PIN screens: setting a PIN, and what a PIN check answers.
use vstd::prelude::*;

use crate::error::AppError;

verus! {

/// Checks a new PIN and its confirmation: "PIN must be at least 4 digits!"
/// when it is shorter than 4 bytes (its `len`), "PINs do not match!" when the two differ.
pub fn check_new_pin(pin: &str, confirm: &str) -> (r: Result<(), String>)
    ensures
        pin.len() < 4 ==> (r matches Err(m) && m@ == "PIN must be at least 4 digits!"@),
        pin.len() >= 4 && pin@ != confirm@ ==> (r matches Err(m) && m@
            == "PINs do not match!"@),
        pin.len() >= 4 && pin@ == confirm@ ==> r is Ok,
{
    proof {
        reveal_strlit("PIN must be at least 4 digits!");
        reveal_strlit("PINs do not match!");
    }
    if pin.len() < 4 {
        return Err("PIN must be at least 4 digits!".to_owned());
    }
    if pin.to_owned() != confirm.to_owned() {
        return Err("PINs do not match!".to_owned());
    }
    Ok(())
}

/// What checking an entered PIN answers.
#[derive(Clone, Debug, PartialEq, Eq)]
pub enum PinCheck {
    /// The PIN is right: unlock, or go on with the action it guards.
    Accepted,
    /// The PIN is wrong: say so and clear the input.
    Incorrect,
    /// The check itself failed, with the message shown.
    Failed(String),
}

impl PinCheck {
    /// The answer to the outcome of checking a PIN against the stored one.
    pub fn from_result(r: &Result<bool, AppError>) -> (c: PinCheck)
        ensures
            r matches Ok(true) ==> c is Accepted,
            r matches Ok(false) ==> c is Incorrect,
            r matches Err(e) ==> (c matches PinCheck::Failed(m) && m@ == "Error: "@
                + e.spec_message()),
    {
        match r {
            Ok(true) => PinCheck::Accepted,
            Ok(false) => PinCheck::Incorrect,
            Err(e) => PinCheck::Failed("Error: ".to_owned().concat(e.to_string().as_str())),
        }
    }

    /// The message shown under the PIN input, if any.
    pub fn message(&self) -> (r: Option<String>)
        ensures
            self is Accepted ==> r is None,
            self is Incorrect ==> (r matches Some(m) && m@ == "Incorrect PIN!"@),
            self matches PinCheck::Failed(f) ==> (r matches Some(m) && m@ == f@),
    {
        proof {
            reveal_strlit("Incorrect PIN!");
        }
        match self {
            PinCheck::Accepted => None,
            PinCheck::Incorrect => Some("Incorrect PIN!".to_owned()),
            PinCheck::Failed(m) => Some(m.clone()),
        }
    }
}

} // verus!
