//! Credentials used to access the BMC.
//!
//! Security notes: the readable rendering redacts the password by
//! design; prefer short-lived instances and avoid logging credentials.

use vstd::prelude::*;

verus! {

/// Credentials used to access the BMC.
pub struct BmcCredentials {
    /// Username to access the BMC.
    pub username: String,
    password: String,
}

impl BmcCredentials {
    /// The characters of the stored username.
    pub closed spec fn username_view(&self) -> Seq<char> {
        self.username@
    }

    /// The characters of the stored password.
    pub closed spec fn password_view(&self) -> Seq<char> {
        self.password@
    }

    /// Create new credentials.
    pub fn new(username: String, password: String) -> (r: BmcCredentials)
        ensures
            r.username_view() == username@,
            r.password_view() == password@,
    {
        BmcCredentials { username, password }
    }

    /// Get the password.
    pub fn password(&self) -> (r: &str)
        ensures
            r@ == self.password_view(),
    {
        self.password.as_str()
    }

    /// A readable rendering with the password redacted: whatever the
    /// password is, it does not appear in the result.
    pub fn redacted(&self) -> (r: String)
        ensures
            r@ == "BmcCredentials(username: "@ + self.username_view()
                + ", password: [REDACTED])"@,
    {
        let mut out = String::from_str("BmcCredentials(username: ");
        out.append(self.username.as_str());
        out.append(", password: [REDACTED])");
        out
    }
}

impl Clone for BmcCredentials {
    fn clone(&self) -> (r: Self)
        ensures
            r.username_view() == self.username_view(),
            r.password_view() == self.password_view(),
    {
        BmcCredentials { username: self.username.clone(), password: self.password.clone() }
    }
}

} // verus!
