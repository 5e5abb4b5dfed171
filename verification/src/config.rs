//! The API key: where it is taken from, and how the saved form is read back.
use vstd::prelude::*;
use crate::text::{is_space, to_owned, trim, trim_end, trim_start, trim_text};

verus! {

/// Why no API key could be had.
#[derive(Debug)]
pub enum ConfigError {
    /// The key file could not be read.
    Unreadable { path: String },
    /// The key file holds nothing but white space.
    Empty,
}

/// The key taken from the environment: its value when it is set and not empty.
pub open spec fn env_token(value: Option<Seq<char>>) -> Option<Seq<char>> {
    match value {
        Some(k) => if k.len() > 0 {
            Some(k)
        } else {
            None
        },
        None => None,
    }
}

/// The key read from the key file: its contents without surrounding white
/// space, refused when nothing is left.
pub open spec fn file_token(contents: Seq<char>) -> Option<Seq<char>> {
    if trim(contents).len() == 0 {
        None
    } else {
        Some(trim(contents))
    }
}

/// The text of a failure, as the program reports it.
pub open spec fn config_message(e: ConfigError) -> Seq<char> {
    match e {
        ConfigError::Unreadable { path } => "could not read API key from "@ + path@
            + "\nRun `splitwise auth <key>` or set SPLITWISE_API_KEY"@,
        ConfigError::Empty => "API key is empty. Run `splitwise auth <key>` or set SPLITWISE_API_KEY"@,
    }
}

/// The key from the environment variable's value, if it is set and not empty.
pub fn token_from_env(value: Option<String>) -> (r: Option<String>)
    ensures
        match r {
            Some(k) => env_token(match value {
                Some(v) => Some(v@),
                None => None,
            }) == Some(k@),
            None => env_token(match value {
                Some(v) => Some(v@),
                None => None,
            }) is None,
        },
{
    match value {
        Some(k) => {
            if k.as_str().is_empty() {
                None
            } else {
                Some(k)
            }
        },
        None => None,
    }
}

/// The key from the key file's contents: trimmed, and refused when empty.
pub fn token_from_file(contents: &str) -> (r: Result<String, ConfigError>)
    ensures
        match r {
            Ok(k) => file_token(contents@) == Some(k@),
            Err(e) => file_token(contents@) is None && e is Empty,
        },
{
    let k = trim_text(contents);
    if k.as_str().is_empty() {
        Err(ConfigError::Empty)
    } else {
        Ok(k)
    }
}

/// The form in which a key is saved: without surrounding white space.
pub fn key_to_save(key: &str) -> (r: String)
    ensures
        r@ == trim(key@),
{
    trim_text(key)
}

impl ConfigError {
    /// The text of the failure.
    pub fn message(&self) -> (r: String)
        ensures
            r@ == config_message(*self),
    {
        match self {
            ConfigError::Unreadable { path } => {
                let mut s = to_owned("could not read API key from ");
                s.append(path.as_str());
                s.append("\nRun `splitwise auth <key>` or set SPLITWISE_API_KEY");
                s
            },
            ConfigError::Empty => to_owned(
                "API key is empty. Run `splitwise auth <key>` or set SPLITWISE_API_KEY",
            ),
        }
    }
}

// ───────────────────────── laws ─────────────────────────

proof fn lemma_trim_start_first(s: Seq<char>)
    ensures
        trim_start(s).len() > 0 ==> !is_space(trim_start(s)[0]),
        trim_start(s).len() <= s.len(),
    decreases s.len(),
{
    if s.len() > 0 && is_space(s[0]) {
        lemma_trim_start_first(s.drop_first());
    }
}

proof fn lemma_trim_end_keeps_first(s: Seq<char>)
    requires
        s.len() > 0 ==> !is_space(s[0]),
    ensures
        trim_end(s).len() > 0 ==> trim_end(s)[0] == s[0],
        trim_end(s).len() > 0 ==> !is_space(trim_end(s).last()),
        trim_end(s).len() == 0 ==> forall|i: int| 0 <= i < s.len() ==> is_space(#[trigger] s[i]),
    decreases s.len(),
{
    if s.len() > 0 && is_space(s.last()) {
        let t = s.drop_last();
        lemma_trim_end_keeps_first(t);
        if trim_end(t).len() == 0 {
            assert forall|i: int| 0 <= i < s.len() implies is_space(#[trigger] s[i]) by {
                if i < t.len() {
                    assert(t[i] == s[i]);
                }
            }
        }
    }
}

/// A trimmed text is its own trim.
pub proof fn lemma_trim_idempotent(s: Seq<char>)
    ensures
        trim(trim(s)) == trim(s),
{
    let a = trim_start(s);
    lemma_trim_start_first(s);
    lemma_trim_end_keeps_first(a);
    let t = trim_end(a);
    // `t` starts with a character that is no space, so trimming its start is
    // the identity; and it ends with no space, so trimming its end is too.
    if t.len() > 0 {
        assert(!is_space(t[0]));
        assert(trim_start(t) == t);
        assert(!is_space(t.last()));
        assert(trim_end(t) == t);
    } else {
        assert(trim_start(t) == t);
        assert(trim_end(t) == t);
    }
}

/// A key saved with `key_to_save` is read back by `token_from_file` as the key
/// without surrounding white space; a key that is nothing but white space is
/// read back as a failure.
pub proof fn saved_key_reads_back(key: Seq<char>)
    ensures
        file_token(trim(key)) == if trim(key).len() == 0 {
            None
        } else {
            Some(trim(key))
        },
{
    lemma_trim_idempotent(key);
}

} // verus!
