//! Why the SDK refuses a request.
use vstd::prelude::*;

verus! {

#[derive(Debug)]
pub enum SdkError {
    InvalidInput(String),
    Generic(String),
}

#[verifier::ext_equal]
pub enum SdkFault {
    InvalidInput(Seq<char>),
    Generic(Seq<char>),
}

impl View for SdkError {
    type V = SdkFault;

    open spec fn view(&self) -> SdkFault {
        match self {
            SdkError::InvalidInput(e) => SdkFault::InvalidInput(e@),
            SdkError::Generic(e) => SdkFault::Generic(e@),
        }
    }
}

} // verus!
