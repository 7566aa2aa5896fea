//! Human-readable names of accounts and chats, as written to the log.

use crate::text::{decimal, decimal_text};
use vstd::prelude::*;

verus! {

/// Something with a name to show in the log.
pub trait FormatName {
    /// The name as shown.
    spec fn formatted(&self) -> Seq<char>;

    /// The name as shown.
    fn format_name(&self) -> (r: String)
        ensures
            r@ == self.formatted(),
    ;
}

/// What the log shows of a user account.
pub struct User {
    /// First and last name, possibly empty.
    pub full_name: String,
    /// The public username, without `@`, if there is one.
    pub username: Option<String>,
    pub id: i64,
}

/// A basic group.
pub struct Group {
    pub title: String,
    pub id: i64,
}

/// A broadcast channel or supergroup.
pub struct Channel {
    pub title: String,
    pub id: i64,
}

/// A chat of any kind, by its display name.
pub struct Chat {
    pub name: String,
    pub id: i64,
}

/// How a user is told apart: `@username`, else the numeric identity.
pub open spec fn user_handle(username: Option<Seq<char>>, id: int) -> Seq<char> {
    match username {
        Some(u) => "@"@ + u,
        None => decimal(id),
    }
}

/// `title (id)`.
pub open spec fn titled(title: Seq<char>, id: int) -> Seq<char> {
    title + " ("@ + decimal(id) + ")"@
}

fn titled_text(title: &str, id: i64) -> (r: String)
    ensures
        r@ == titled(title@, id as int),
{
    let mut r = String::from_str(title);
    r.append(" (");
    let digits = decimal_text(id);
    r.append(digits.as_str());
    r.append(")");
    r
}

impl FormatName for User {
    /// The full name followed by the handle in parentheses, or the handle
    /// alone when the full name is empty.
    open spec fn formatted(&self) -> Seq<char> {
        let handle = user_handle(
            match self.username {
                Some(u) => Some(u@),
                None => None,
            },
            self.id as int,
        );
        if self.full_name@.len() == 0 {
            handle
        } else {
            self.full_name@ + " ("@ + handle + ")"@
        }
    }

    fn format_name(&self) -> (r: String) {
        let handle = match &self.username {
            Some(u) => {
                let mut h = String::from_str("@");
                h.append(u.as_str());
                h
            },
            None => decimal_text(self.id),
        };
        if self.full_name.as_str().unicode_len() == 0 {
            handle
        } else {
            let mut r = self.full_name.clone();
            r.append(" (");
            r.append(handle.as_str());
            r.append(")");
            r
        }
    }
}

impl FormatName for Group {
    open spec fn formatted(&self) -> Seq<char> {
        titled(self.title@, self.id as int)
    }

    fn format_name(&self) -> (r: String) {
        titled_text(self.title.as_str(), self.id)
    }
}

impl FormatName for Channel {
    open spec fn formatted(&self) -> Seq<char> {
        titled(self.title@, self.id as int)
    }

    fn format_name(&self) -> (r: String) {
        titled_text(self.title.as_str(), self.id)
    }
}

impl FormatName for Chat {
    open spec fn formatted(&self) -> Seq<char> {
        titled(self.name@, self.id as int)
    }

    fn format_name(&self) -> (r: String) {
        titled_text(self.name.as_str(), self.id)
    }
}

} // verus!
