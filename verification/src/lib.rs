pub mod args;
pub mod candle;
pub mod decimal;
pub mod fin_data;

use vstd::prelude::*;

use crate::fin_data::{assoc, is_not_found, FinData, LookupError, LookupKind};

verus! {

/// The response of the notification-scheduling entry point: the email
/// target and the body that were read from the call arguments.
#[derive(Clone, Debug)]
pub struct Output {
    pub email: String,
    pub body: String,
}

impl Output {
    /// Reads the `email` and `body` call arguments of the payload. Both are
    /// required, and the first one missing names the failure.
    pub fn from_fin_data(fin: &FinData) -> (r: Result<Output, LookupError>)
        ensures
            r is Ok <==> (assoc(fin.call_arguments@, "email"@) is Some && assoc(
                fin.call_arguments@,
                "body"@,
            ) is Some),
            r matches Ok(o) ==> (assoc(fin.call_arguments@, "email"@) matches Some(v) && o.email@
                == v@),
            r matches Ok(o) ==> (assoc(fin.call_arguments@, "body"@) matches Some(v) && o.body@
                == v@),
            assoc(fin.call_arguments@, "email"@) is None ==> (r matches Err(e) && is_not_found(
                e,
                LookupKind::Argument,
                "email"@,
            )),
            (assoc(fin.call_arguments@, "email"@) is Some && assoc(fin.call_arguments@, "body"@)
                is None) ==> (r matches Err(e) && is_not_found(e, LookupKind::Argument, "body"@)),
    {
        let email = match fin.get_call_argument::<String>("email") {
            Ok(v) => v,
            Err(e) => {
                return Err(e);
            },
        };
        let body = match fin.get_call_argument::<String>("body") {
            Ok(v) => v,
            Err(e) => {
                return Err(e);
            },
        };
        Ok(Output { email, body })
    }
}

} // verus!
