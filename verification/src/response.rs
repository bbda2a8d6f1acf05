use vstd::prelude::*;

verus! {

/// The envelope every successful API answer is wrapped in.
#[derive(Debug)]
pub struct StandardResponse<T> {
    pub success: bool,
    pub message: Option<String>,
    pub data: T,
}

/// The view of an optional message: the characters it holds, if any.
pub open spec fn opt_str_view(m: Option<&str>) -> Option<Seq<char>> {
    match m {
        Some(s) => Some(s@),
        None => None,
    }
}

/// The view of an optional owned string.
pub open spec fn opt_string_view(m: Option<String>) -> Option<Seq<char>> {
    match m {
        Some(s) => Some(s@),
        None => None,
    }
}

impl<T> StandardResponse<T> {
    /// A successful answer carrying `data`, with an optional message.
    pub fn success(data: T, message: Option<&str>) -> (r: Self)
        ensures
            r.success,
            opt_string_view(r.message) == opt_str_view(message),
            r.data == data,
    {
        let message = match message {
            Some(m) => Some(String::from_str(m)),
            None => None,
        };
        StandardResponse { success: true, message, data }
    }
}

/// The pair of tokens a successful login or refresh hands out.
#[derive(Clone, Debug, PartialEq, Eq)]
pub struct AuthResponseData {
    pub access_token: String,
    pub refresh_token: String,
}

} // verus!
