//! The structured conversion error. One error type carries all four fault
//! kinds, the number of the offending descriptor, and the caller's hint for
//! the expected kind, so an operator can tell from the description alone
//! which descriptor was refused and why.

use crate::identity::ConvertFault;
use crate::numeral::i32_dec;
use crate::numeral::spec_idec;
use vstd::prelude::*;

verus! {

/// Why a descriptor could not be converted, together with the data the
/// description names: the descriptor's number as the OS reports it, the
/// caller's hint for the expected kind (empty where no validation hint
/// applies), and the raw OS error of a failed hardening step (0 otherwise).
#[derive(Clone, Debug)]
pub struct ConvertError {
    pub fault: ConvertFault,
    pub fd: i32,
    pub hint: String,
    pub errno: i32,
}

impl ConvertError {
    /// The description [`Self::describe`] renders.
    pub open spec fn spec_describe(self) -> Seq<char> {
        if self.fault == ConvertFault::NotASocket {
            "fd "@ + spec_idec(self.fd as int) + " is not a socket"@
        } else if self.fault == ConvertFault::HardeningFailed {
            "fd "@ + spec_idec(self.fd as int) + " cannot be marked close-on-exec (errno "@
                + spec_idec(self.errno as int) + ")"@
        } else {
            "fd "@ + spec_idec(self.fd as int) + " is not a valid "@ + self.hint@
        }
    }

    /// Renders the error for an operator: names the offending descriptor
    /// and, for a validation fault, the expected kind.
    pub fn describe(&self) -> (s: String)
        ensures
            s@ == self.spec_describe(),
    {
        proof {
            reveal_strlit("fd ");
        }
        let mut s = String::from_str("fd ");
        let num = i32_dec(self.fd);
        s.append(num.as_str());
        match self.fault {
            ConvertFault::NotASocket => {
                proof {
                    reveal_strlit(" is not a socket");
                }
                s.append(" is not a socket");
            },
            ConvertFault::HardeningFailed => {
                proof {
                    reveal_strlit(" cannot be marked close-on-exec (errno ");
                    reveal_strlit(")");
                }
                s.append(" cannot be marked close-on-exec (errno ");
                let errno = i32_dec(self.errno);
                s.append(errno.as_str());
                s.append(")");
            },
            ConvertFault::WrongFamily | ConvertFault::WrongType => {
                proof {
                    reveal_strlit(" is not a valid ");
                }
                s.append(" is not a valid ");
                s.append(self.hint.as_str());
            },
        }
        s
    }
}

} // verus!
