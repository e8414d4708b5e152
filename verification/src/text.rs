//! Splitting of identifiers at separator characters.

use vstd::prelude::*;
use vstd::string::StrSliceExecFns;

verus! {

/// `i` is the position of the first `c` in `s`.
pub open spec fn is_first_index_of(s: Seq<char>, c: char, i: int) -> bool {
    &&& 0 <= i < s.len()
    &&& s[i] == c
    &&& forall|j: int| 0 <= j < i ==> s[j] != c
}

/// `s` holds `c` at two positions or more.
pub open spec fn occurs_twice(s: Seq<char>, c: char) -> bool {
    exists|i: int, j: int| 0 <= i < j < s.len() && s[i] == c && s[j] == c
}

/// The position of the first `c` in `s` at or after `from`, or `s`'s length
/// where there is none.
fn find_char(s: &str, n: usize, c: char, from: usize) -> (pos: usize)
    requires
        n == s@.len(),
        from <= n,
    ensures
        from <= pos <= s@.len(),
        pos < s@.len() ==> s@[pos as int] == c,
        forall|j: int| from <= j < pos ==> s@[j] != c,
{
    let mut i = from;
    while i < n
        invariant
            n == s@.len(),
            from <= i <= n,
            forall|j: int| from <= j < i ==> s@[j] != c,
        decreases n - i,
    {
        if s.get_char(i) == c {
            return i;
        }
        i = i + 1;
    }
    i
}

/// Splits an application id such as `com.example.App` into its qualifier,
/// organization and application name: the parts before the first dot,
/// between the first and the second dot, and after the second dot (which may
/// hold further dots). `None` when the id holds fewer than two dots.
pub fn split_app_id(app_id: &str) -> (parts: Option<(String, String, String)>)
    ensures
        parts is None <==> !occurs_twice(app_id@, '.'),
        parts matches Some((q, o, a)) ==> {
            &&& app_id@ == q@ + seq!['.'] + o@ + seq!['.'] + a@
            &&& !q@.contains('.')
            &&& !o@.contains('.')
        },
{
    let n = app_id.unicode_len();
    let first = find_char(app_id, n, '.', 0);
    if first >= n {
        assert(!occurs_twice(app_id@, '.'));
        return None;
    }
    let second = find_char(app_id, n, '.', first + 1);
    if second >= n {
        assert forall|i: int, j: int| 0 <= i < j < app_id@.len() && app_id@[i] == '.'
            implies app_id@[j] != '.' by {
            assert(i >= first);
        }
        return None;
    }
    let q = app_id.substring_char(0, first).to_owned();
    let o = app_id.substring_char(first + 1, second).to_owned();
    let a = app_id.substring_char(second + 1, n).to_owned();
    assert(app_id@ =~= q@ + seq!['.'] + o@ + seq!['.'] + a@);
    assert(occurs_twice(app_id@, '.')) by {
        assert(app_id@[first as int] == '.' && app_id@[second as int] == '.');
    }
    assert(!q@.contains('.')) by {
        assert forall|k: int| 0 <= k < q@.len() implies q@[k] != '.' by {
            assert(q@[k] == app_id@[k]);
        }
    }
    assert(!o@.contains('.')) by {
        assert forall|k: int| 0 <= k < o@.len() implies o@[k] != '.' by {
            assert(o@[k] == app_id@[first + 1 + k]);
        }
    }
    Some((q, o, a))
}

/// The server part of a Matrix user id `@localpart:server`: everything after
/// the first colon.
pub fn server_name(user_id: &str) -> (server: String)
    requires
        user_id@.contains(':'),
    ensures
        exists|i: int| is_first_index_of(user_id@, ':', i) && server@ == user_id@.skip(i + 1),
{
    let n = user_id.unicode_len();
    let colon = find_char(user_id, n, ':', 0);
    if colon >= n {
        assert(false);
    }
    let server = user_id.substring_char(colon + 1, n).to_owned();
    assert(server@ =~= user_id@.skip(colon + 1));
    assert(is_first_index_of(user_id@, ':', colon as int));
    server
}

} // verus!
