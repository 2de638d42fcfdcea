use crate::text::opt_view;
use vstd::prelude::*;

verus! {

/// A health check that could not be carried out.
#[derive(Debug, Clone, Copy, PartialEq, Eq, Structural)]
pub struct CheckError;

impl CheckError {
    /// The short name of the error.
    pub fn description(&self) -> (r: String)
        ensures
            r@ == "CheckError"@,
    {
        "CheckError".to_owned()
    }

    /// The message of the error.
    pub fn message(&self) -> (r: String)
        ensures
            r@ == "check error"@,
    {
        "check error".to_owned()
    }
}

/// The result of one health check: its name and its finding.
pub type CheckResult<T> = Result<T, CheckError>;

/// What reading the member `key` of the JSON text `text` as a string gives:
/// `None` when serde_json does not accept the text as JSON (it is not JSON,
/// or nests deeper than serde_json's recursion limit); `Some(None)` when it
/// is accepted but has no such
/// member, or the member is not a string; `Some(Some(s))` otherwise.
pub uninterp spec fn json_str_member(text: Seq<char>, key: Seq<char>) -> Option<Option<Seq<char>>>;

/// Relies on serde_json::from_str to parse `text` into a serde_json::Value,
/// and on Value::get and Value::as_str to read its member `key` as a string.
/// The result depends on `text` and `key` alone; a parse error gives `None`.
#[verifier::external_body]
fn json_string_member(text: &str, key: &str) -> (r: Option<Option<String>>)
    ensures
        r is Some <==> json_str_member(text@, key@) is Some,
        r matches Some(m) ==> opt_view(m) == json_str_member(text@, key@)->0,
{
    match serde_json::from_str::<serde_json::Value>(text) {
        Ok(value) => Some(value.get(key).and_then(|m| m.as_str()).map(|s| s.to_owned())),
        Err(_) => None,
    }
}

/// The name of the version check.
pub open spec fn version_check_name() -> Seq<char> {
    "Chef Client Version Check"@
}

/// The name of the check that the client runs.
pub open spec fn client_check_name() -> Seq<char> {
    "Chef Client Executes Normally Check"@
}

/// The finding of the version check, from what reading `build_version`
/// from the manifest gave: the version when the manifest is JSON and holds
/// it as a string, an error otherwise.
pub fn version_check_from(found: Option<Option<String>>) -> (r: CheckResult<(String, String)>)
    ensures
        r is Ok <==> (found matches Some(Some(_))),
        r matches Ok(c) ==> c.0@ == version_check_name() && found == Some(Some(c.1)),
{
    match found {
        Some(Some(version)) => Ok(("Chef Client Version Check".to_owned(), version)),
        _ => Err(CheckError),
    }
}

/// The version check on the text of the client's version manifest: the
/// string member `build_version`. A manifest that is not JSON, or lacks a
/// string `build_version`, gives an error, never a panic.
pub fn version_check(manifest: &str) -> (r: CheckResult<(String, String)>)
    ensures
        r is Ok <==> (json_str_member(manifest@, "build_version"@) matches Some(Some(_))),
        r matches Ok(c) ==> c.0@ == version_check_name() && json_str_member(
            manifest@,
            "build_version"@,
        ) == Some(Some(c.1@)),
{
    let found = json_string_member(manifest, "build_version");
    version_check_from(found)
}

/// The finding of the check that runs the client: whether it exited
/// successfully.
pub fn client_check(success: bool) -> (r: (String, String))
    ensures
        r.0@ == client_check_name(),
        r.1@ == (if success { "true"@ } else { "false"@ }),
{
    let finding = if success {
        "true"
    } else {
        "false"
    };
    ("Chef Client Executes Normally Check".to_owned(), finding.to_owned())
}

/// The character views of a list of findings.
pub open spec fn entries_view(v: Seq<(String, String)>) -> Seq<(Seq<char>, Seq<char>)> {
    v.map_values(|e: (String, String)| (e.0@, e.1@))
}

/// No name occurs twice.
pub open spec fn names_unique(es: Seq<(Seq<char>, Seq<char>)>) -> bool {
    forall|i: int, j: int| 0 <= i < j < es.len() ==> es[i].0 != es[j].0
}

/// The findings of the health checks, by check name.
pub struct State {
    checks: Vec<(String, String)>,
}

impl State {
    /// The findings, in order; each name occurs once.
    pub closed spec fn entries(&self) -> Seq<(Seq<char>, Seq<char>)> {
        entries_view(self.checks@)
    }

    pub open spec fn wf(&self) -> bool {
        names_unique(self.entries())
    }

    /// No findings yet.
    pub fn new() -> (r: State)
        ensures
            r.wf(),
            r.entries() == Seq::<(Seq<char>, Seq<char>)>::empty(),
    {
        let r = State { checks: Vec::new() };
        assert(r.entries() =~= Seq::<(Seq<char>, Seq<char>)>::empty());
        r
    }

    /// The findings.
    pub fn checks(&self) -> (r: &Vec<(String, String)>)
        ensures
            entries_view(r@) == self.entries(),
    {
        &self.checks
    }

    /// Replaces all findings with `val`.
    pub fn update_checks(&mut self, val: Vec<(String, String)>)
        requires
            names_unique(entries_view(val@)),
        ensures
            final(self).wf(),
            final(self).entries() == entries_view(val@),
    {
        self.checks = val;
    }
}

/// The entry of one check: its own finding, or the check's name and the
/// error's description when it failed.
pub open spec fn check_entry(r: CheckResult<(String, String)>, name: Seq<char>) -> (
    Seq<char>,
    Seq<char>,
) {
    match r {
        Ok(c) => (c.0@, c.1@),
        Err(_) => (name, "CheckError"@),
    }
}

/// A map of two entries, inserted in order: a second entry under the same
/// name replaces the first.
pub open spec fn two_entries(a: (Seq<char>, Seq<char>), b: (Seq<char>, Seq<char>)) -> Seq<
    (Seq<char>, Seq<char>),
> {
    if a.0 == b.0 {
        seq![b]
    } else {
        seq![a, b]
    }
}

fn entry_of(r: CheckResult<(String, String)>, name: &str) -> (e: (String, String))
    ensures
        (e.0@, e.1@) == check_entry(r, name@),
{
    match r {
        Ok(c) => c,
        Err(err) => (name.to_owned(), err.description()),
    }
}

/// Records the findings of the version check and of the check that runs
/// the client, each under its own name, or under `VersionCheck` and
/// `ChefClientCheck` with the error's description when it failed.
pub fn update_health_checks(
    health: &mut State,
    version: CheckResult<(String, String)>,
    client: CheckResult<(String, String)>,
) -> (r: CheckResult<()>)
    ensures
        r is Ok,
        final(health).wf(),
        final(health).entries() == two_entries(
            check_entry(version, "VersionCheck"@),
            check_entry(client, "ChefClientCheck"@),
        ),
{
    let a = entry_of(version, "VersionCheck");
    let b = entry_of(client, "ChefClientCheck");
    let same = a.0 == b.0;
    let mut results: Vec<(String, String)> = Vec::new();
    if !same {
        results.push(a);
    }
    results.push(b);
    proof {
        assert(entries_view(results@) =~= two_entries(
            check_entry(version, "VersionCheck"@),
            check_entry(client, "ChefClientCheck"@),
        ));
    }
    health.update_checks(results);
    Ok(())
}

} // verus!
