//! The routes of the archive: which request goes to which handler.

use vstd::prelude::*;
use vstd::string::*;
use crate::error::MuxFailure;
use crate::gate::UserId;
use crate::text::same_text;

verus! {

/// The handler that a request goes to.
pub enum Route {
    /// `GET /api/users/<target>/links`: show the links of a user.
    GetUsersLinks(UserId),
    /// `POST /api/users/<target>/links`: take in new links for a user.
    PostUsersLinks(UserId),
    /// `GET /api/login`: show the login page.
    GetLogin,
    /// `POST /api/login`: log in.
    PostLogin,
    /// `POST /api/logout`: log out.
    PostLogout,
}

/// The segment that names the user in a path of the form
/// `/api/users/<segment>/links`; `None` for a path of another form. A
/// segment holds no `/`.
pub open spec fn links_target(path: Seq<char>) -> Option<Seq<char>> {
    let head = "/api/users/"@;
    let tail = "/links"@;
    if path.len() >= head.len() + tail.len() && path.subrange(0, head.len() as int) == head
        && path.subrange(path.len() - tail.len(), path.len() as int) == tail {
        let segment = path.subrange(head.len() as int, path.len() - tail.len());
        if forall|i: int| 0 <= i < segment.len() ==> segment[i] != '/' {
            Some(segment)
        } else {
            None
        }
    } else {
        None
    }
}

/// A path without the one `/` that may close it.
pub open spec fn without_closing_slash(path: Seq<char>) -> Seq<char> {
    if path.len() > 0 && path.last() == '/' {
        path.drop_last()
    } else {
        path
    }
}

/// Where a request goes, by its method and its path, one `/` at the end of
/// the path not counting. A path that no route has is not found; a path that
/// a route has with another method is not allowed; a user segment that names
/// nobody is a parse failure.
pub open spec fn routed(method: Seq<char>, path: Seq<char>) -> Result<Route, MuxFailure> {
    routed_exactly(method, without_closing_slash(path))
}

/// Where a request goes, by its method and its path as it stands.
pub open spec fn routed_exactly(method: Seq<char>, path: Seq<char>) -> Result<Route, MuxFailure> {
    if path == "/api/login"@ {
        if method == "GET"@ {
            Ok(Route::GetLogin)
        } else if method == "POST"@ {
            Ok(Route::PostLogin)
        } else {
            Err(MuxFailure::MethodNotAllowed)
        }
    } else if path == "/api/logout"@ {
        if method == "POST"@ {
            Ok(Route::PostLogout)
        } else {
            Err(MuxFailure::MethodNotAllowed)
        }
    } else {
        match links_target(path) {
            None => Err(MuxFailure::NotFound),
            Some(segment) => if method != "GET"@ && method != "POST"@ {
                Err(MuxFailure::MethodNotAllowed)
            } else {
                match UserId::parsed(segment) {
                    None => Err(MuxFailure::Parse),
                    Some(target) => if method == "GET"@ {
                        Ok(Route::GetUsersLinks(UserId(target)))
                    } else {
                        Ok(Route::PostUsersLinks(UserId(target)))
                    },
                }
            },
        }
    }
}

/// Takes the user segment out of a path: see `links_target`.
pub fn user_segment(path: &str) -> (r: Option<&str>)
    ensures
        match r {
            Some(segment) => links_target(path@) == Some(segment@),
            None => links_target(path@) is None,
        },
{
    proof {
        reveal_strlit("/api/users/");
        reveal_strlit("/links");
    }
    let n: usize = path.unicode_len();
    if n < 17 {
        return None;
    }
    if !same_text(path.substring_char(0, 11), "/api/users/") {
        return None;
    }
    if !same_text(path.substring_char(n - 6, n), "/links") {
        return None;
    }
    let segment = path.substring_char(11, n - 6);
    let m: usize = n - 17;
    let mut i: usize = 0;
    while i < m
        invariant
            i <= m,
            m == segment@.len(),
            n == path@.len(),
            n >= 17,
            segment@ == path@.subrange(11, n - 6),
            "/api/users/"@.len() == 11,
            "/links"@.len() == 6,
            forall|k: int| 0 <= k < i ==> segment@[k] != '/',
        decreases m - i,
    {
        if segment.get_char(i) == '/' {
            return None;
        }
        i = i + 1;
    }
    Some(segment)
}

/// Takes the one `/` that may close a path off it.
pub fn trim_closing_slash(path: &str) -> (r: &str)
    ensures
        r@ == without_closing_slash(path@),
{
    let n: usize = path.unicode_len();
    if n > 0 && path.get_char(n - 1) == '/' {
        let r = path.substring_char(0, n - 1);
        assert(r@ =~= path@.drop_last());
        r
    } else {
        path
    }
}

/// Finds the route of a request: see `routed`.
pub fn route(method: &str, path: &str) -> (r: Result<Route, MuxFailure>)
    ensures
        r == routed(method@, path@),
{
    let path = trim_closing_slash(path);
    let get = same_text(method, "GET");
    let post = same_text(method, "POST");
    if same_text(path, "/api/login") {
        return if get {
            Ok(Route::GetLogin)
        } else if post {
            Ok(Route::PostLogin)
        } else {
            Err(MuxFailure::MethodNotAllowed)
        };
    }
    if same_text(path, "/api/logout") {
        return if post {
            Ok(Route::PostLogout)
        } else {
            Err(MuxFailure::MethodNotAllowed)
        };
    }
    let segment = match user_segment(path) {
        Some(segment) => segment,
        None => {
            return Err(MuxFailure::NotFound);
        },
    };
    if !get && !post {
        return Err(MuxFailure::MethodNotAllowed);
    }
    match UserId::from_str(segment) {
        Ok(target) => if get {
            Ok(Route::GetUsersLinks(target))
        } else {
            Ok(Route::PostUsersLinks(target))
        },
        Err(_) => Err(MuxFailure::Parse),
    }
}

} // verus!
