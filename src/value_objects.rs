//! Self-validating wrappers for the user's question and the API's base URL.
use vstd::prelude::*;

use crate::errors::DomainError;
use crate::text::{blank, is_blank};

verus! {

/// A question typed by the user: never blank, kept exactly as typed.
#[derive(Debug, PartialEq, Eq)]
pub struct Question(String);

impl Clone for Question {
    fn clone(&self) -> (r: Self)
        ensures
            r@ == self@,
    {
        proof {
            use_type_invariant(self);
        }
        Question(self.0.clone())
    }
}

impl View for Question {
    type V = Seq<char>;

    closed spec fn view(&self) -> Seq<char> {
        self.0@
    }
}

impl Question {
    #[verifier::type_invariant]
    closed spec fn not_blank(self) -> bool {
        !blank(self.0@)
    }

    /// A question holding `value` unchanged, or `EmptyQuestion` when `value`
    /// is blank.
    pub fn try_new(value: &str) -> (r: Result<Self, DomainError>)
        ensures
            blank(value@) ==> r == Err::<Self, DomainError>(DomainError::EmptyQuestion),
            !blank(value@) ==> (r matches Ok(q) && q@ == value@),
    {
        if is_blank(value) {
            return Err(DomainError::EmptyQuestion);
        }
        Ok(Question(value.to_string()))
    }

    /// The question's text, as typed.
    pub fn as_str(&self) -> (r: &str)
        ensures
            r@ == self@,
            !blank(r@),
    {
        proof {
            use_type_invariant(self);
        }
        self.0.as_str()
    }
}

/// `s` without one trailing `/`, if it ends with one.
pub open spec fn without_trailing_slash(s: Seq<char>) -> Seq<char> {
    if s.len() > 0 && s.last() == '/' {
        s.drop_last()
    } else {
        s
    }
}

/// `s` without one leading `/`, if it starts with one.
pub open spec fn without_leading_slash(s: Seq<char>) -> Seq<char> {
    if s.len() > 0 && s[0] == '/' {
        s.skip(1)
    } else {
        s
    }
}

/// A base URL and an endpoint path, with exactly one `/` between them.
pub open spec fn joined(base: Seq<char>, path: Seq<char>) -> Seq<char> {
    without_trailing_slash(base) + seq!['/'] + without_leading_slash(path)
}

/// Joining normalises slashes: for a base without a trailing `/` and a path
/// without a leading `/`, the base with or without one trailing `/` and the
/// path with or without one leading `/` all give the base and the path with
/// exactly one `/` between them.
pub proof fn lemma_join_slash_forms(base: Seq<char>, path: Seq<char>)
    requires
        base.len() == 0 || base.last() != '/',
        path.len() == 0 || path[0] != '/',
    ensures
        joined(base, path) == base + seq!['/'] + path,
        joined(base.push('/'), path) == joined(base, path),
        joined(base, seq!['/'] + path) == joined(base, path),
        joined(base.push('/'), seq!['/'] + path) == joined(base, path),
{
    assert(base.push('/').drop_last() =~= base);
    assert((seq!['/'] + path).skip(1) =~= path);
}

/// The root URL of the remote service: never blank, not otherwise checked.
#[derive(Debug, PartialEq, Eq)]
pub struct ApiBaseUrl(String);

impl Clone for ApiBaseUrl {
    fn clone(&self) -> (r: Self)
        ensures
            r@ == self@,
    {
        proof {
            use_type_invariant(self);
        }
        ApiBaseUrl(self.0.clone())
    }
}

impl View for ApiBaseUrl {
    type V = Seq<char>;

    closed spec fn view(&self) -> Seq<char> {
        self.0@
    }
}

impl ApiBaseUrl {
    #[verifier::type_invariant]
    closed spec fn not_blank(self) -> bool {
        !blank(self.0@)
    }

    /// A base URL holding `value` unchanged, or `EmptyBaseUrl` when `value`
    /// is blank.
    pub fn try_new(value: &str) -> (r: Result<Self, DomainError>)
        ensures
            blank(value@) ==> r == Err::<Self, DomainError>(DomainError::EmptyBaseUrl),
            !blank(value@) ==> (r matches Ok(u) && u@ == value@),
    {
        if is_blank(value) {
            return Err(DomainError::EmptyBaseUrl);
        }
        Ok(ApiBaseUrl(value.to_string()))
    }

    /// The URL's text, as given.
    pub fn as_str(&self) -> (r: &str)
        ensures
            r@ == self@,
            !blank(r@),
    {
        proof {
            use_type_invariant(self);
        }
        self.0.as_str()
    }

    /// The URL of the endpoint at `path`: one trailing `/` of the base and one
    /// leading `/` of the path are dropped, and a single `/` joins the two.
    pub fn join(&self, path: &str) -> (r: String)
        ensures
            r@ == joined(self@, path@),
    {
        let full = self.0.as_str();
        let n = full.unicode_len();
        let head = if n > 0 && full.get_char(n - 1) == '/' {
            full.substring_char(0, n - 1)
        } else {
            full
        };
        let m = path.unicode_len();
        let tail = if m > 0 && path.get_char(0) == '/' {
            path.substring_char(1, m)
        } else {
            path
        };
        let mut r = head.to_string();
        r.append("/");
        r.append(tail);
        proof {
            reveal_strlit("/");
            assert(without_trailing_slash(self@) =~= head@);
            assert(without_leading_slash(path@) =~= tail@);
        }
        r
    }
}

} // verus!
