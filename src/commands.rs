use vstd::prelude::*;

verus! {

/// A completion offered for the command being typed.
#[derive(Debug, Clone, PartialEq, Eq)]
pub struct Completion {
    /// The whole command, as listed to the user.
    pub display: String,
    /// What is inserted at the cursor: the command from the cursor on.
    pub replacement: String,
}

/// The commands of the client's prompt, in the order they are offered.
pub open spec fn command_names() -> Seq<Seq<char>> {
    seq![
        "login"@,
        "add_webhook"@,
        "add_access_token"@,
        "list_pipeline"@,
        "list_repos"@,
        "events"@,
    ]
}

fn commands() -> (r: Vec<&'static str>)
    ensures
        r@.map_values(|c: &'static str| c@) == command_names(),
{
    let r = vec!["login", "add_webhook", "add_access_token", "list_pipeline", "list_repos", "events"];
    assert(r@.map_values(|c: &'static str| c@) =~= command_names());
    r
}

/// The completions of `line`, with the cursor at `pos`, among `names`: each
/// name that `line` begins, with the part of it from the cursor on.
pub open spec fn completions_among(names: Seq<Seq<char>>, line: Seq<char>, pos: int) -> Seq<
    (Seq<char>, Seq<char>),
>
    decreases names.len(),
{
    if names.len() == 0 {
        seq![]
    } else {
        let rest = completions_among(names.drop_last(), line, pos);
        let c = names.last();
        if line.is_prefix_of(c) {
            rest.push((c, c.subrange(pos, c.len() as int)))
        } else {
            rest
        }
    }
}

/// The completions as pairs of display text and replacement.
pub open spec fn completions_view(v: Seq<Completion>) -> Seq<(Seq<char>, Seq<char>)> {
    v.map_values(|c: Completion| (c.display@, c.replacement@))
}

/// Whether `s` begins with `prefix`.
pub fn starts_with(s: &str, prefix: &str) -> (r: bool)
    ensures
        r == prefix@.is_prefix_of(s@),
{
    let n = prefix.unicode_len();
    if n > s.unicode_len() {
        return false;
    }
    let mut i: usize = 0;
    while i < n
        invariant
            n == prefix@.len(),
            n <= s@.len(),
            i <= n,
            forall|j: int| 0 <= j < i ==> prefix@[j] == s@[j],
        decreases n - i,
    {
        if prefix.get_char(i) != s.get_char(i) {
            assert(prefix@[i as int] != s@.subrange(0, n as int)[i as int]);
            return false;
        }
        i = i + 1;
    }
    assert(prefix@ =~= s@.subrange(0, n as int));
    true
}

/// The completions of the command being typed: each command that `line`
/// begins, with the part of it from the cursor `pos` on.
pub fn complete(line: &str, pos: usize) -> (r: Vec<Completion>)
    requires
        pos <= line@.len(),
    ensures
        completions_view(r@) == completions_among(command_names(), line@, pos as int),
{
    let names = commands();
    let mut r: Vec<Completion> = Vec::new();
    let mut i: usize = 0;
    while i < names.len()
        invariant
            i <= names@.len(),
            pos <= line@.len(),
            names@.map_values(|c: &'static str| c@) == command_names(),
            completions_view(r@) == completions_among(command_names().take(i as int), line@, pos as int),
        decreases names@.len() - i,
    {
        let c = names[i];
        assert(command_names().take(i + 1).drop_last() =~= command_names().take(i as int));
        assert(command_names()[i as int] == c@);
        if starts_with(c, line) {
            let display = c.to_owned();
            let replacement = c.substring_char(pos, c.unicode_len()).to_owned();
            r.push(Completion { display, replacement });
            assert(completions_view(r@) =~= completions_view(r@.drop_last()).push(
                (display@, replacement@),
            ));
        }
        i = i + 1;
    }
    assert(command_names().take(names@.len() as int) =~= command_names());
    r
}

} // verus!
