use vstd::prelude::*;

verus! {

broadcast use vstd::string::group_string_axioms;

// A cookie jar is the page's cookie string, `name=value` rows joined by "; ".
// The session cookie is the value of the first row whose name is `DSID`: the
// text after `DSID=` up to the next `=`, or to the end of the row.

/// Row `i` of `jar` starts here: at the beginning or right after a "; ".
pub open spec fn is_row_start(jar: Seq<char>, i: int) -> bool {
    i == 0 || (2 <= i <= jar.len() && jar[i - 2] == ';' && jar[i - 1] == ' ')
}

/// A "; " row separator begins at position `k`.
pub open spec fn is_separator_at(jar: Seq<char>, k: int) -> bool {
    0 <= k && k + 1 < jar.len() && jar[k] == ';' && jar[k + 1] == ' '
}

/// `DSID=` is written at position `i`.
pub open spec fn names_session_at(jar: Seq<char>, i: int) -> bool {
    &&& 0 <= i
    &&& i + 5 <= jar.len()
    &&& jar[i] == 'D'
    &&& jar[i + 1] == 'S'
    &&& jar[i + 2] == 'I'
    &&& jar[i + 3] == 'D'
    &&& jar[i + 4] == '='
}

/// The first position at or after `i` where a `DSID` row starts.
pub open spec fn session_row_from(jar: Seq<char>, i: int) -> Option<int>
    decreases jar.len() - i,
{
    if i < 0 || i >= jar.len() {
        None
    } else if is_row_start(jar, i) && names_session_at(jar, i) {
        Some(i)
    } else {
        session_row_from(jar, i + 1)
    }
}

/// Where a value that runs from `k` ends: at the next `=`, at the next row
/// separator, or at the end of the jar.
pub open spec fn value_end(jar: Seq<char>, k: int) -> int
    decreases jar.len() - k,
{
    if k < 0 || k >= jar.len() {
        jar.len() as int
    } else if jar[k] == '=' || is_separator_at(jar, k) {
        k
    } else {
        value_end(jar, k + 1)
    }
}

/// The session cookie's value in `jar`, if a `DSID` row is there.
pub open spec fn session_cookie_of(jar: Seq<char>) -> Option<Seq<char>> {
    match session_row_from(jar, 0) {
        Some(i) => Some(jar.subrange(i + 5, value_end(jar, i + 5))),
        None => None,
    }
}

/// The contents of `s`, seen as characters.
pub open spec fn text_of(s: Option<String>) -> Option<Seq<char>> {
    match s {
        Some(v) => Some(v@),
        None => None,
    }
}

/// The characters of `s`, in order.
fn chars_of(s: &str) -> (r: Vec<char>)
    ensures
        r@ == s@,
{
    let mut r: Vec<char> = Vec::new();
    for c in it: s.chars()
        invariant
            it.seq() == s@,
            r@ == it.seq().take(it.index() as int),
    {
        r.push(c);
    }
    r
}

proof fn lemma_value_end_bounds(jar: Seq<char>, k: int)
    requires
        0 <= k <= jar.len(),
    ensures
        k <= value_end(jar, k) <= jar.len(),
    decreases jar.len() - k,
{
    if k < jar.len() && !(jar[k] == '=' || is_separator_at(jar, k)) {
        lemma_value_end_bounds(jar, k + 1);
    }
}

/// Finds the session cookie in a page's cookie string.
pub fn session_cookie(jar: &str) -> (r: Option<String>)
    ensures
        text_of(r) == session_cookie_of(jar@),
{
    let cs = chars_of(jar);
    let n = cs.len();
    let mut i: usize = 0;
    while i < n
        invariant
            cs@ == jar@,
            n == cs.len(),
            i <= n,
            session_row_from(cs@, 0) == session_row_from(cs@, i as int),
        decreases n - i,
    {
        let row_start = i == 0 || (i >= 2 && cs[i - 2] == ';' && cs[i - 1] == ' ');
        let named = n - i >= 5 && cs[i] == 'D' && cs[i + 1] == 'S' && cs[i + 2] == 'I'
            && cs[i + 3] == 'D' && cs[i + 4] == '=';
        if row_start && named {
            let start = i + 5;
            let mut k: usize = start;
            while k < n && cs[k] != '=' && !(k + 1 < n && cs[k] == ';' && cs[k + 1] == ' ')
                invariant
                    cs@ == jar@,
                    n == cs.len(),
                    start <= k <= n,
                    value_end(cs@, start as int) == value_end(cs@, k as int),
                decreases n - k,
            {
                k = k + 1;
            }
            proof {
                lemma_value_end_bounds(cs@, k as int);
            }
            let value = jar.substring_char(start, k);
            return Some(value.to_owned());
        }
        i = i + 1;
    }
    None
}

} // verus!
