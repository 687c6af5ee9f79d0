use vstd::prelude::*;
use vstd::string::*;

verus! {

/// Why a startup argument was refused; each variant keeps the raw input.
#[derive(Debug, Clone)]
pub enum CmdArgError {
    BadPath(String),
    BadHouseCode(String),
    BadDeviceNumber(String),
}

impl CmdArgError {
    /// The sentence that reports this error to the user.
    pub open spec fn message_of(&self) -> Seq<char> {
        match self {
            CmdArgError::BadPath(s) => "Path doesn't exist or is not a file: "@ + s@,
            CmdArgError::BadHouseCode(s) => "Not a valid X10 house code: "@ + s@,
            CmdArgError::BadDeviceNumber(s) => "Not a valid X10 device number: "@ + s@,
        }
    }

    /// Reports this error to the user, with the input that was refused.
    pub fn message(&self) -> (r: String)
        ensures
            r@ == self.message_of(),
    {
        let (mut r, raw) = match self {
            CmdArgError::BadPath(s) => (String::from_str("Path doesn't exist or is not a file: "), s),
            CmdArgError::BadHouseCode(s) => (String::from_str("Not a valid X10 house code: "), s),
            CmdArgError::BadDeviceNumber(s) => (
                String::from_str("Not a valid X10 device number: "),
                s,
            ),
        };
        r.append(raw.as_str());
        r
    }
}

} // verus!
