use vstd::prelude::*;

verus! {

/// The errors of a key-value store.
#[derive(Debug, Clone, Copy, PartialEq, Eq, Structural)]
pub enum CRUDError {
    NotFound,
    AlreadyExists,
}

/// The text that describes each error.
pub open spec fn crud_error_text(e: CRUDError) -> Seq<char> {
    match e {
        CRUDError::NotFound => "could not find entry"@,
        CRUDError::AlreadyExists => "entry already exists"@,
    }
}

impl CRUDError {
    /// Describes the error in words.
    pub fn to_string(&self) -> (s: String)
        ensures
            s@ == crud_error_text(*self),
    {
        match self {
            CRUDError::NotFound => {
                let t = "could not find entry";
                proof {
                    reveal_strlit("could not find entry");
                }
                t.to_owned()
            },
            CRUDError::AlreadyExists => {
                let t = "entry already exists";
                proof {
                    reveal_strlit("entry already exists");
                }
                t.to_owned()
            },
        }
    }
}

} // verus!
