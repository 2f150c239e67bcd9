//! The remaining prompt primitives: environment-variable lookup
//! checks, home-directory shortening, terminal-size fallback,
//! configuration-file candidates, and host-name tidying.

use vstd::prelude::*;

use crate::text::{ends_with_str, is_prefix_of, is_suffix_of, starts_with_str};

verus! {

/// An argument the host scripting engine hands a primitive: a piece
/// of text, or a value of any other kind.
pub enum ArgValue {
    Text(String),
    Other,
}

/// Why an environment-variable lookup failed.
pub enum GetenvError {
    WrongArity,
    NotText,
    Unset(String),
}

/// The user-visible failure text for each lookup error.
pub open spec fn getenv_error_message(e: GetenvError) -> Seq<char> {
    match e {
        GetenvError::WrongArity => "'getenv' requires 1 argument"@,
        GetenvError::NotText => "'getenv' requires a string argument"@,
        GetenvError::Unset(k) => "'getenv' failed with key '"@ + k@ + "'"@,
    }
}

impl GetenvError {
    /// The failure text, naming the primitive and the expectation
    /// violated.
    pub fn message(&self) -> (r: String)
        ensures
            r@ == getenv_error_message(*self),
    {
        match self {
            GetenvError::WrongArity => String::from_str("'getenv' requires 1 argument"),
            GetenvError::NotText => String::from_str("'getenv' requires a string argument"),
            GetenvError::Unset(k) => {
                let mut s = String::from_str("'getenv' failed with key '");
                s.append(k.as_str());
                s.append("'");
                s
            },
        }
    }
}

/// Checks a `getenv` call's arguments: there must be exactly one,
/// and it must be text; that text is the key to look up.
pub fn getenv_key(args: &Vec<ArgValue>) -> (r: Result<String, GetenvError>)
    ensures
        match r {
            Ok(k) => args@.len() == 1 && (match args@[0] {
                ArgValue::Text(t) => k@ == t@,
                ArgValue::Other => false,
            }),
            Err(e) => match e {
                GetenvError::WrongArity => args@.len() != 1,
                GetenvError::NotText => args@.len() == 1 && args@[0] is Other,
                GetenvError::Unset(_) => false,
            },
        },
{
    if args.len() != 1 {
        return Err(GetenvError::WrongArity);
    }
    match &args[0] {
        ArgValue::Text(t) => Ok(t.clone()),
        ArgValue::Other => Err(GetenvError::NotText),
    }
}

/// Turns the environment's answer for `key` into the primitive's
/// result: the value where the variable is set, a lookup error
/// naming the key where it is not.
pub fn getenv_value(key: &String, looked: Option<String>) -> (r: Result<String, GetenvError>)
    ensures
        match r {
            Ok(v) => looked matches Some(lv) && v@ == lv@,
            Err(e) => looked is None && (e matches GetenvError::Unset(k) && k@ == key@),
        },
{
    match looked {
        Some(v) => Ok(v),
        None => Err(GetenvError::Unset(key.clone())),
    }
}

/// Replaces a leading home-directory prefix with `~`; without a home
/// directory, or without the prefix, the path is unchanged.
pub fn replace_home_path(path: String, home: &Option<String>) -> (r: String)
    ensures
        match *home {
            None => r@ == path@,
            Some(h) => if is_prefix_of(h@, path@) {
                r@ == seq!['~'] + path@.skip(h@.len() as int)
            } else {
                r@ == path@
            },
        },
{
    match home {
        None => path,
        Some(h) => {
            if starts_with_str(path.as_str(), h.as_str()) {
                let plen = path.as_str().unicode_len();
                let hlen = h.as_str().unicode_len();
                let mut s = String::from_str("~");
                s.append(path.as_str().substring_char(hlen, plen));
                proof {
                    reveal_strlit("~");
                    assert(s@ =~= seq!['~'] + path@.skip(h@.len() as int));
                }
                s
            } else {
                path
            }
        },
    }
}

/// The terminal's fallback dimensions, for hosts where no real
/// terminal can be measured.
pub fn term_size() -> (r: (i32, i32))
    ensures
        r == (80i32, 60i32),
{
    (80, 60)
}

/// Terminal dimensions from a measurement, falling back to the
/// defaults where none could be taken.
pub fn term_size_from(measured: Option<(u16, u16)>) -> (r: (i32, i32))
    ensures
        match measured {
            Some(wh) => r == (wh.0 as i32, wh.1 as i32),
            None => r == (80i32, 60i32),
        },
{
    match measured {
        Some((w, h)) => (w as i32, h as i32),
        None => (80, 60),
    }
}

/// The nested configuration candidate under `base`.
pub fn config_dir_candidate(base: &String) -> (r: String)
    ensures
        r@ == base@ + "/starstruck/main.lsp"@,
{
    let mut s = base.clone();
    s.append("/starstruck/main.lsp");
    s
}

/// The flat configuration candidate under `base`.
pub fn config_flat_candidate(base: &String) -> (r: String)
    ensures
        r@ == base@ + "/starstruck.lsp"@,
{
    let mut s = base.clone();
    s.append("/starstruck.lsp");
    s
}

/// Picks the configuration path under `base`, given which of the two
/// candidates exists; the nested one wins.
pub fn find_config_path_from_base(base: &String, dir_exists: bool, flat_exists: bool) -> (r:
    Option<String>)
    ensures
        match r {
            Some(p) => (dir_exists && p@ == base@ + "/starstruck/main.lsp"@) || (!dir_exists
                && flat_exists && p@ == base@ + "/starstruck.lsp"@),
            None => !dir_exists && !flat_exists,
        },
{
    if dir_exists {
        Some(config_dir_candidate(base))
    } else if flat_exists {
        Some(config_flat_candidate(base))
    } else {
        None
    }
}

/// Drops a trailing `.local` from a host name, as reported on
/// machines that append it; other names pass through.
pub fn strip_local_suffix(name: String) -> (r: String)
    ensures
        if is_suffix_of(".local"@, name@) {
            r@ == name@.take(name@.len() - ".local"@.len())
        } else {
            r@ == name@
        },
{
    if ends_with_str(name.as_str(), ".local") {
        proof {
            reveal_strlit(".local");
        }
        let len = name.as_str().unicode_len();
        let r = String::from_str(name.as_str().substring_char(0, len - 6));
        proof {
            assert(r@ =~= name@.take(name@.len() - ".local"@.len()));
        }
        r
    } else {
        name
    }
}

} // verus!
