//! Parsing and checking of the Basic authentication header: the scheme
//! prefix is stripped, the payload is base64-decoded and read as UTF-8,
//! and the result must be exactly `username:passcode`. The passcode is
//! then verified against the account's stored digest.

use vstd::prelude::*;

use crate::assoc::{assoc_get, assoc_has};
use crate::auth::{sha256_hex_of, Credentials};
use crate::state::{AppState, CustomError};
use base64::Engine;
use vstd::utf8::{decode_utf8, valid_utf8};

verus! {

/// What the standard base64 alphabet decodes a string to, if anything:
/// a function of the input characters alone.
pub uninterp spec fn base64_decode_of(s: Seq<char>) -> Option<Seq<u8>>;

/// Relies on base64's standard-alphabet engine: decoding is determined
/// by the input alone.
#[verifier::external_body]
fn base64_decode(s: &str) -> (r: Option<Vec<u8>>)
    ensures
        match r {
            Some(b) => base64_decode_of(s@) == Some(b@),
            None => base64_decode_of(s@) is None,
        },
{
    base64::engine::general_purpose::STANDARD.decode(s).ok()
}

/// Relies on std's String::from_utf8: succeeds exactly on valid UTF-8,
/// decoding it.
#[verifier::external_body]
fn string_from_utf8(bytes: Vec<u8>) -> (r: Option<String>)
    ensures
        match r {
            Some(s) => valid_utf8(bytes@) && s@ == decode_utf8(bytes@),
            None => !valid_utf8(bytes@),
        },
{
    String::from_utf8(bytes).ok()
}

/// How often `c` occurs in `s`.
pub open spec fn spec_count_char(s: Seq<char>, c: char) -> nat
    decreases s.len(),
{
    if s.len() == 0 {
        0
    } else {
        spec_count_char(s.drop_last(), c) + (if s.last() == c {
            1nat
        } else {
            0nat
        })
    }
}

/// An occurrence makes the count positive.
proof fn lemma_count_char_occurrence(s: Seq<char>, c: char, i: int)
    requires
        0 <= i < s.len(),
        s[i] == c,
    ensures
        spec_count_char(s, c) >= 1,
    decreases s.len(),
{
    if i < s.len() - 1 {
        lemma_count_char_occurrence(s.drop_last(), c, i);
    }
}

/// Two occurrences make the count at least two.
proof fn lemma_count_char_two(s: Seq<char>, c: char, i: int, j: int)
    requires
        0 <= i < j < s.len(),
        s[i] == c,
        s[j] == c,
    ensures
        spec_count_char(s, c) >= 2,
    decreases s.len(),
{
    if j == s.len() - 1 {
        lemma_count_char_occurrence(s.drop_last(), c, i);
    } else {
        lemma_count_char_two(s.drop_last(), c, i, j);
    }
}

fn count_char(s: &str, c: char) -> (r: usize)
    ensures
        r == spec_count_char(s@, c),
{
    let len = s.unicode_len();
    let mut i: usize = 0;
    let mut cnt: usize = 0;
    while i < len
        invariant
            0 <= i <= len,
            len == s@.len(),
            cnt <= i,
            cnt == spec_count_char(s@.subrange(0, i as int), c),
        decreases len - i,
    {
        proof {
            assert(s@.subrange(0, i as int + 1).drop_last() =~= s@.subrange(0, i as int));
            assert(s@.subrange(0, i as int + 1).last() == s@[i as int]);
        }
        if s.get_char(i) == c {
            cnt = cnt + 1;
        }
        i = i + 1;
    }
    proof {
        assert(s@.subrange(0, len as int) =~= s@);
    }
    cnt
}

fn find_char(s: &str, c: char) -> (r: Option<usize>)
    ensures
        match r {
            Some(i) => 0 <= i < s@.len() && s@[i as int] == c && (forall|j: int|
                0 <= j < i ==> s@[j] != c),
            None => forall|j: int| 0 <= j < s@.len() ==> s@[j] != c,
        },
{
    let len = s.unicode_len();
    let mut i: usize = 0;
    while i < len
        invariant
            0 <= i <= len,
            len == s@.len(),
            forall|j: int| 0 <= j < i ==> s@[j] != c,
        decreases len - i,
    {
        if s.get_char(i) == c {
            return Some(i);
        }
        i = i + 1;
    }
    None
}

/// The position of the only colon in `data`.
pub open spec fn spec_colon_idx(data: Seq<char>) -> int {
    choose|i: int| 0 <= i < data.len() && data[i] == ':'
}

/// What a Basic authentication header splits into, if it is well-formed:
/// a scheme prefix of six characters, then base64 over valid UTF-8 with
/// exactly one colon between username and passcode.
pub open spec fn spec_basic_auth_split(header: Seq<char>) -> Option<(Seq<char>, Seq<char>)> {
    if header.len() < 6 {
        None
    } else {
        match base64_decode_of(header.subrange(6, header.len() as int)) {
            None => None,
            Some(bytes) => {
                if !valid_utf8(bytes) {
                    None
                } else {
                    let data = decode_utf8(bytes);
                    if spec_count_char(data, ':') != 1 {
                        None
                    } else {
                        let i = spec_colon_idx(data);
                        Some((data.subrange(0, i), data.subrange(i + 1, data.len() as int)))
                    }
                }
            },
        }
    }
}

/// Splits an authorization header into username and passcode, rejecting
/// every malformed header with the status the service reports for it.
pub fn parse_basic_auth(header: &str) -> (r: Result<(String, String), CustomError>)
    ensures
        match r {
            Ok(up) => spec_basic_auth_split(header@) == Some((up.0@, up.1@)),
            Err(e) => spec_basic_auth_split(header@) is None && if header@.len() < 6 {
                e.1 == 401 && e.0@ == "invalid token"@
            } else {
                e.1 == 400
            },
        },
{
    let len = header.unicode_len();
    if len < 6 {
        return Err(CustomError::new("invalid token".to_owned(), 401));
    }
    let payload = header.substring_char(6, len);
    let bytes = match base64_decode(payload) {
        Some(b) => b,
        None => {
            return Err(CustomError::new("Invalid base64 encoding".to_owned(), 400));
        },
    };
    let data = match string_from_utf8(bytes) {
        Some(s) => s,
        None => {
            return Err(CustomError::new("Invalid UTF-8 encoding".to_owned(), 400));
        },
    };
    if count_char(data.as_str(), ':') != 1 {
        return Err(CustomError::new("Invalid auth string".to_owned(), 400));
    }
    let idx = match find_char(data.as_str(), ':') {
        Some(i) => i,
        None => {
            proof {
                assert(false) by {
                    assert(spec_count_char(data@, ':') == 1);
                    lemma_count_nonzero_has_occurrence(data@, ':');
                }
            }
            return Err(CustomError::new("Invalid auth string".to_owned(), 400));
        },
    };
    proof {
        let w = spec_colon_idx(data@);
        assert(data@[idx as int] == ':');
        assert(0 <= w < data@.len() && data@[w] == ':');
        assert(w == idx) by {
            if w < idx {
                assert(data@[w] != ':');
            } else if w > idx {
                lemma_count_char_two(data@, ':', idx as int, w);
            }
        }
    }
    let data_len = data.as_str().unicode_len();
    let username = data.as_str().substring_char(0, idx).to_owned();
    let passcode = data.as_str().substring_char(idx + 1, data_len).to_owned();
    Ok((username, passcode))
}

/// A positive count exhibits an occurrence.
proof fn lemma_count_nonzero_has_occurrence(s: Seq<char>, c: char)
    requires
        spec_count_char(s, c) >= 1,
    ensures
        exists|i: int| 0 <= i < s.len() && s[i] == c,
    decreases s.len(),
{
    if s.len() > 0 {
        if s.last() == c {
            assert(s[s.len() - 1] == c);
        } else {
            lemma_count_nonzero_has_occurrence(s.drop_last(), c);
            let i = choose|i: int| 0 <= i < s.drop_last().len() && s.drop_last()[i] == c;
            assert(s[i] == c);
        }
    }
}

impl AppState {
    /// Authenticates one request: the Basic header must parse, the
    /// username must be a registered account, and the passcode's digest
    /// must match the stored one. Returns the authenticated username.
    pub fn login(&self, auth_header: &str) -> (r: Result<String, CustomError>)
        requires
            self.wf(),
        ensures
            match r {
                Ok(u) => spec_basic_auth_split(auth_header@) matches Some(parts) && u@ == parts.0
                    && assoc_has(self.users@, parts.0) && assoc_get(
                    self.users@,
                    parts.0,
                ).hashed_passcode@ == sha256_hex_of(parts.1),
                Err(e) => match spec_basic_auth_split(auth_header@) {
                    None => if auth_header@.len() < 6 {
                        e.1 == 401 && e.0@ == "invalid token"@
                    } else {
                        e.1 == 400
                    },
                    Some(parts) => e.1 == 401 && e.0@ == "invalid login"@ && (!assoc_has(
                        self.users@,
                        parts.0,
                    ) || assoc_get(self.users@, parts.0).hashed_passcode@ != sha256_hex_of(
                        parts.1,
                    )),
                },
            },
    {
        let (username, passcode) = match parse_basic_auth(auth_header) {
            Ok(up) => up,
            Err(e) => {
                return Err(e);
            },
        };
        let stored = match self.get_user_by_username(username.as_str()) {
            Some(u) => u,
            None => {
                return Err(CustomError::new("invalid login".to_owned(), 401));
            },
        };
        if !Credentials::verify_passcode(&passcode, &stored.hashed_passcode) {
            return Err(CustomError::new("invalid login".to_owned(), 401));
        }
        Ok(username)
    }
}

} // verus!
