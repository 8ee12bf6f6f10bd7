//! Credential-pair parsing: a line `user:password` splits at the first
//! colon; a line without a colon is a format error.

use vstd::prelude::*;

verus! {

/// A pre-paired credential for confirmation mode.
#[derive(Debug)]
pub struct Credential {
    pub user: String,
    pub password: String,
}

/// A credential line without the `user:password` separator, reported with
/// the offending line.
#[derive(Debug)]
pub struct FormatError {
    pub line: String,
}

/// True when the line holds a colon separator somewhere.
pub open spec fn has_colon(s: Seq<char>) -> bool {
    exists|i: int| 0 <= i < s.len() && s[i] == ':'
}

/// The index of the first colon of the line (the length when there is
/// none).
pub open spec fn first_colon(s: Seq<char>) -> int
    decreases s.len(),
{
    if s.len() == 0 {
        0
    } else if s[0] == ':' {
        0
    } else {
        1 + first_colon(s.drop_first())
    }
}

/// The user part of a credential line: everything before the first colon.
pub open spec fn cred_user(s: Seq<char>) -> Seq<char> {
    s.take(first_colon(s))
}

/// The password part of a credential line: everything after the first
/// colon.
pub open spec fn cred_password(s: Seq<char>) -> Seq<char> {
    s.skip(first_colon(s) + 1)
}

/// On a line with a colon, `first_colon` points at a colon and nothing
/// before it is one.
pub proof fn lemma_first_colon(s: Seq<char>)
    requires
        has_colon(s),
    ensures
        0 <= first_colon(s) < s.len(),
        s[first_colon(s)] == ':',
        forall|j: int| 0 <= j < first_colon(s) ==> s[j] != ':',
    decreases s.len(),
{
    if s.len() == 0 {
    } else if s[0] == ':' {
    } else {
        let t = s.drop_first();
        let w = choose|i: int| 0 <= i < s.len() && s[i] == ':';
        assert(t[w - 1] == ':');
        lemma_first_colon(t);
        assert forall|j: int| 0 <= j < first_colon(s) implies s[j] != ':' by {
            if j > 0 {
                assert(t[j - 1] != ':');
            }
        }
    }
}

/// An index that is a colon with no colon before it is the first colon.
pub proof fn lemma_first_colon_at(s: Seq<char>, i: int)
    requires
        0 <= i < s.len(),
        s[i] == ':',
        forall|j: int| 0 <= j < i ==> s[j] != ':',
    ensures
        first_colon(s) == i,
    decreases s.len(),
{
    if s[0] == ':' {
        assert(i == 0);
    } else {
        let t = s.drop_first();
        assert(t[i - 1] == ':');
        assert forall|j: int| 0 <= j < i - 1 implies t[j] != ':' by {
            assert(s[j + 1] != ':');
        }
        lemma_first_colon_at(t, i - 1);
    }
}

/// Split one credential line at its first colon; a line without a colon
/// is rejected as a format error carrying the line itself.
pub fn parse_credential(line: &String) -> (r: Result<Credential, FormatError>)
    ensures
        r is Ok <==> has_colon(line@),
        r matches Ok(c) ==> c.user@ == cred_user(line@) && c.password@ == cred_password(line@),
        r matches Err(e) ==> e.line@ == line@,
{
    let len = line.as_str().unicode_len();
    let mut i: usize = 0;
    while i < len
        invariant
            i <= len,
            len == line@.len(),
            forall|j: int| 0 <= j < i ==> line@[j] != ':',
        decreases len - i,
    {
        if line.as_str().get_char(i) == ':' {
            proof {
                lemma_first_colon_at(line@, i as int);
            }
            let user = line.as_str().substring_char(0, i).to_owned();
            let password = line.as_str().substring_char(i + 1, len).to_owned();
            proof {
                assert(line@.subrange(0, i as int) =~= cred_user(line@));
                assert(line@.subrange(i + 1, len as int) =~= cred_password(line@));
            }
            return Ok(Credential { user, password });
        }
        i = i + 1;
    }
    Err(FormatError { line: line.clone() })
}

/// Parse a whole credential list, preserving order; the first malformed
/// line makes the whole list a format error, as a setup failure aborts
/// the run before any attempt is submitted.
pub fn parse_credentials(lines: &Vec<String>) -> (r: Result<Vec<Credential>, FormatError>)
    ensures
        r is Ok <==> (forall|i: int| 0 <= i < lines@.len() ==> has_colon(lines@[i]@)),
        r matches Ok(cs) ==> cs@.len() == lines@.len() && (forall|i: int|
            0 <= i < lines@.len() ==> (#[trigger] cs@[i]).user@ == cred_user(lines@[i]@)
                && cs@[i].password@ == cred_password(lines@[i]@)),
        r matches Err(e) ==> exists|i: int|
            0 <= i < lines@.len() && !has_colon(#[trigger] lines@[i]@) && e.line@ == lines@[i]@
                && (forall|j: int| 0 <= j < i ==> has_colon(lines@[j]@)),
{
    let mut creds: Vec<Credential> = Vec::new();
    let mut i: usize = 0;
    while i < lines.len()
        invariant
            i <= lines@.len(),
            creds@.len() == i,
            forall|j: int| 0 <= j < i ==> has_colon(lines@[j]@),
            forall|j: int|
                0 <= j < i ==> (#[trigger] creds@[j]).user@ == cred_user(lines@[j]@)
                    && creds@[j].password@ == cred_password(lines@[j]@),
        decreases lines@.len() - i,
    {
        match parse_credential(&lines[i]) {
            Ok(c) => {
                creds.push(c);
            },
            Err(e) => {
                return Err(e);
            },
        }
        i = i + 1;
    }
    Ok(creds)
}

} // verus!
