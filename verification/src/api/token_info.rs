use vstd::prelude::*;

use crate::util::clock::now_seconds;

verus! {

/// The fields of the authorization server's validation response: whose
/// token it is, which scopes it carries, and how long it still lives.
pub struct TokenInfoData {
    pub client_id: String,
    pub login: String,
    pub scopes: Vec<String>,
    pub user_id: String,
    pub expires_in: Option<u64>,
}

/// A validation response together with the second (since the Unix epoch)
/// at which it was obtained.
pub struct TokenInfo {
    pub data: TokenInfoData,
    pub obtainment_date: u64,
}

impl TokenInfo {
    /// Wrap a freshly deserialized validation response; the obtainment
    /// date is the clock reading at the moment of construction.
    pub fn new(data: TokenInfoData) -> (r: Self)
        ensures
            r.data == data,
    {
        TokenInfo { data, obtainment_date: now_seconds() }
    }

    /// The client identifier the validated token belongs to.
    pub fn client_id(&self) -> (r: &str)
        ensures
            r@ == self.data.client_id@,
    {
        self.data.client_id.as_str()
    }

    /// The scopes the validated token carries.
    pub fn scopes(&self) -> (r: &[String])
        ensures
            r.deep_view() == self.data.scopes.deep_view(),
    {
        self.data.scopes.as_slice()
    }

    /// The second at which the validated token expires: the obtainment
    /// date plus the reported remaining life, pinned to the largest
    /// representable second if the sum does not fit; `None` for a token
    /// that does not expire.
    pub fn expiry_date(&self) -> (r: Option<u64>)
        ensures
            match self.data.expires_in {
                Some(expires_in) => r == Some(
                    if self.obtainment_date + expires_in <= u64::MAX {
                        (self.obtainment_date + expires_in) as u64
                    } else {
                        u64::MAX
                    },
                ),
                None => r is None,
            },
    {
        match self.data.expires_in {
            Some(expires_in) => Some(
                if expires_in <= u64::MAX - self.obtainment_date {
                    self.obtainment_date + expires_in
                } else {
                    u64::MAX
                },
            ),
            None => None,
        }
    }
}

} // verus!
