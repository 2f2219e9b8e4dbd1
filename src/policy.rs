use vstd::prelude::*;

verus! {

/// How one of a child's standard streams is connected.
#[derive(Clone, Copy, Debug, PartialEq, Eq, Structural)]
pub enum StdioPolicy {
    /// Shared with the parent.
    Inherit,
    /// Discarded.
    Null,
    /// Redirected to a pipe the parent reads or writes.
    Piped,
}

/// The policy a name selects. Only "inherit" and "null" select something
/// other than a pipe: a missing name and any other text, a misspelt one
/// included, select `Piped`.
pub open spec fn policy_named(name: Option<Seq<char>>) -> StdioPolicy {
    match name {
        Some(n) => if n == "inherit"@ {
            StdioPolicy::Inherit
        } else if n == "null"@ {
            StdioPolicy::Null
        } else {
            StdioPolicy::Piped
        },
        None => StdioPolicy::Piped,
    }
}

/// The value of the last entry under `key`, as a map built from the entries
/// in order would hold it.
pub open spec fn lookup(entries: Seq<(String, String)>, key: Seq<char>) -> Option<Seq<char>>
    decreases entries.len(),
{
    if entries.len() == 0 {
        None
    } else if entries.last().0@ == key {
        Some(entries.last().1@)
    } else {
        lookup(entries.drop_last(), key)
    }
}

impl StdioPolicy {
    pub fn from_name(name: Option<&String>) -> (r: StdioPolicy)
        ensures
            r == policy_named(match name {
                Some(n) => Some(n@),
                None => None,
            }),
    {
        match name {
            Some(n) => {
                let inherit = "inherit".to_owned();
                let null = "null".to_owned();
                if n.eq(&inherit) {
                    StdioPolicy::Inherit
                } else if n.eq(&null) {
                    StdioPolicy::Null
                } else {
                    StdioPolicy::Piped
                }
            },
            None => StdioPolicy::Piped,
        }
    }

    pub fn is_piped(&self) -> (r: bool)
        ensures
            r == (*self == StdioPolicy::Piped),
    {
        match self {
            StdioPolicy::Piped => true,
            _ => false,
        }
    }
}

/// The index of the last entry under `key`.
fn find_last(entries: &Vec<(String, String)>, key: &String) -> (r: Option<usize>)
    ensures
        match r {
            Some(i) => i < entries@.len() && lookup(entries@, key@) == Some(entries@[i as int].1@),
            None => lookup(entries@, key@) is None,
        },
{
    let mut found: Option<usize> = None;
    let mut i: usize = 0;
    while i < entries.len()
        invariant
            i <= entries@.len(),
            match found {
                Some(j) => j < i && lookup(entries@.take(i as int), key@) == Some(
                    entries@[j as int].1@,
                ),
                None => lookup(entries@.take(i as int), key@) is None,
            },
        decreases entries@.len() - i,
    {
        let ghost prev = entries@.take(i as int);
        assert(entries@.take(i + 1).drop_last() == prev);
        assert(entries@.take(i + 1).last() == entries@[i as int]);
        if entries[i].0.eq(key) {
            found = Some(i);
        }
        i = i + 1;
    }
    assert(entries@.take(entries@.len() as int) == entries@);
    found
}

/// The policies of a child's standard input, output and error.
#[derive(Clone, Copy, Debug, PartialEq, Eq, Structural)]
pub struct StdioSelection {
    pub stdin: StdioPolicy,
    pub stdout: StdioPolicy,
    pub stderr: StdioPolicy,
}

/// The selection a request makes: each stream takes the policy named under
/// its own key, and without a request every stream is piped.
pub open spec fn selection_requested(request: Option<Seq<(String, String)>>) -> StdioSelection {
    match request {
        Some(entries) => StdioSelection {
            stdin: policy_named(lookup(entries, "stdin"@)),
            stdout: policy_named(lookup(entries, "stdout"@)),
            stderr: policy_named(lookup(entries, "stderr"@)),
        },
        None => StdioSelection {
            stdin: StdioPolicy::Piped,
            stdout: StdioPolicy::Piped,
            stderr: StdioPolicy::Piped,
        },
    }
}

fn policy_under(entries: &Vec<(String, String)>, key: &String) -> (r: StdioPolicy)
    ensures
        r == policy_named(lookup(entries@, key@)),
{
    match find_last(entries, key) {
        Some(i) => StdioPolicy::from_name(Some(&entries[i].1)),
        None => StdioPolicy::from_name(None),
    }
}

impl StdioSelection {
    pub fn all_piped() -> (r: StdioSelection)
        ensures
            r == selection_requested(None),
    {
        StdioSelection {
            stdin: StdioPolicy::Piped,
            stdout: StdioPolicy::Piped,
            stderr: StdioPolicy::Piped,
        }
    }

    /// Reads a request of named policies, keyed "stdin", "stdout" and
    /// "stderr"; a stream the request leaves out is piped.
    pub fn requested(request: Option<&Vec<(String, String)>>) -> (r: StdioSelection)
        ensures
            r == selection_requested(match request {
                Some(v) => Some(v@),
                None => None,
            }),
    {
        match request {
            Some(entries) => {
                let stdin = policy_under(entries, &"stdin".to_owned());
                let stdout = policy_under(entries, &"stdout".to_owned());
                let stderr = policy_under(entries, &"stderr".to_owned());
                StdioSelection { stdin, stdout, stderr }
            },
            None => StdioSelection::all_piped(),
        }
    }
}

} // verus!
