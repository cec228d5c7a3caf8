//! Response-envelope interpretation.
//!
//! Every endpoint answers with `{status, message, result}`. The balance
//! endpoints treat the status as authoritative: `"1"` is success, `"0"`
//! is the dedicated balance failure, anything else is a bad status code.
//! The list endpoints ignore the status entirely and return the result
//! unconditionally — legitimate empty listings arrive with status `"0"`,
//! so unifying the two rules would change observable behaviour. The
//! asymmetry is deliberate and preserved per endpoint.

use vstd::prelude::*;
use crate::errors::{ErrorModel, EtherscanError};

verus! {

/// A raw response envelope, decoded per the endpoint's record schema but
/// not yet interpreted.
#[derive(Clone, Debug, PartialEq, Eq)]
pub struct Response<T> {
    pub status: String,
    pub message: String,
    pub result: T,
}

/// Whether a status string is the single character `c`.
fn status_is(s: &String, c: char) -> (r: bool)
    ensures
        r == (s@ == seq![c]),
{
    let n = s.as_str().unicode_len();
    if n != 1 {
        proof {
            assert(s@ != seq![c]) by {
                if s@ == seq![c] {
                    assert(s@.len() == 1);
                }
            }
        }
        return false;
    }
    let r = s.as_str().get_char(0) == c;
    proof {
        if r {
            assert(s@ =~= seq![c]);
        } else {
            if s@ == seq![c] {
                assert(s@[0] == c);
            }
        }
    }
    r
}

/// Interprets a balance-endpoint envelope, for which the status is
/// authoritative: `"1"` yields the result, `"0"` is the dedicated
/// balance failure, and any other status is a bad status code carrying
/// the raw status string.
pub fn interpret_balance<T>(resp: Response<T>) -> (r: Result<T, EtherscanError>)
    ensures
        resp.status@ == seq!['1'] ==> (r matches Ok(v) && v == resp.result),
        resp.status@ == seq!['0'] ==> r == Err::<T, EtherscanError>(EtherscanError::BalanceFailed),
        (resp.status@ != seq!['1'] && resp.status@ != seq!['0']) ==> (r matches Err(e) && e@
            == ErrorModel::BadStatusCode(resp.status@)),
{
    proof {
        assert(seq!['0'] != seq!['1']) by {
            assert(seq!['0'][0] == '0' && seq!['1'][0] == '1');
        }
    }
    if status_is(&resp.status, '1') {
        Ok(resp.result)
    } else if status_is(&resp.status, '0') {
        Err(EtherscanError::BalanceFailed)
    } else {
        Err(EtherscanError::BadStatusCode(resp.status))
    }
}

/// Interprets a list-endpoint envelope: the already-decoded result is
/// returned unconditionally and the status is ignored, because these
/// endpoints report status `"0"` for legitimately empty listings.
pub fn interpret_list<T>(resp: Response<T>) -> (r: T)
    ensures
        r == resp.result,
{
    resp.result
}

} // verus!
