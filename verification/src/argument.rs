//! The argument compiler.
//!
//! A declarative template carries literal tokens and rule-gated entries.
//! Compilation filters the entries through the rule engine, substitutes
//! `${name}` placeholders from a caller-assembled resolution table, pairs a
//! value-expecting flag with an immediately following bare placeholder, and
//! yields the final ordered token lists for the two halves of an
//! invocation.

use vstd::prelude::*;

use crate::rule::{Features, HostPlatform, Rule};
use crate::rule::{rules_allow, spec_rules_allow};

verus! {

// ---------------------------------------------------------------------------
// The resolution table
// ---------------------------------------------------------------------------
/// The placeholder table one launch assembles: name to value, the most
/// recent binding winning.
pub struct PlaceholderTable {
    entries: Vec<(String, String)>,
}

impl View for PlaceholderTable {
    type V = Seq<(Seq<char>, Seq<char>)>;

    closed spec fn view(&self) -> Seq<(Seq<char>, Seq<char>)> {
        self.entries@.map_values(|e: (String, String)| (e.0@, e.1@))
    }
}

/// The value bound to a name, the most recent binding winning; `None` for
/// a name the table does not bind.
pub open spec fn spec_resolve(table: Seq<(Seq<char>, Seq<char>)>, name: Seq<char>) -> Option<
    Seq<char>,
>
    decreases table.len(),
{
    if table.len() == 0 {
        None
    } else if table.last().0 == name {
        Some(table.last().1)
    } else {
        spec_resolve(table.drop_last(), name)
    }
}

impl PlaceholderTable {
    /// A table that binds nothing.
    pub fn new() -> (r: PlaceholderTable)
        ensures
            r@ == Seq::<(Seq<char>, Seq<char>)>::empty(),
    {
        let t = PlaceholderTable { entries: Vec::new() };
        proof {
            assert(t@ =~= Seq::<(Seq<char>, Seq<char>)>::empty());
        }
        t
    }

    /// Bind `name` to `value`, shadowing any earlier binding.
    pub fn set(&mut self, name: String, value: String)
        ensures
            final(self)@ == old(self)@.push((name@, value@)),
    {
        let ghost before = self@;
        self.entries.push((name, value));
        proof {
            assert(self@ =~= before.push(
                (self.entries@.last().0@, self.entries@.last().1@),
            ));
        }
    }

    /// Look the name up, the most recent binding winning.
    pub fn resolve(&self, name: &String) -> (r: Option<&String>)
        ensures
            match r {
                Some(value) => spec_resolve(self@, name@) == Some(value@),
                None => spec_resolve(self@, name@) is None,
            },
    {
        let mut i: usize = self.entries.len();
        proof {
            assert(self@.take(self@.len() as int) =~= self@);
        }
        while i > 0
            invariant
                i <= self.entries@.len(),
                self@.len() == self.entries@.len(),
                spec_resolve(self@, name@) == spec_resolve(self@.take(i as int), name@),
            decreases i,
        {
            proof {
                assert(self@.take(i as int).drop_last() =~= self@.take(i - 1));
                assert(self@.take(i as int).last() == self@[i - 1]);
            }
            i = i - 1;
            if self.entries[i].0 == *name {
                return Some(&self.entries[i].1);
            }
        }
        None
    }
}

// ---------------------------------------------------------------------------
// Placeholder markers
// ---------------------------------------------------------------------------
/// Index of the first `${` at or after `i`, if any.
pub open spec fn spec_find_opener(s: Seq<char>, i: int) -> Option<int>
    decreases s.len() - i,
{
    if i < 0 || i + 1 >= s.len() {
        None
    } else if s[i] == '$' && s[i + 1] == '{' {
        Some(i)
    } else {
        spec_find_opener(s, i + 1)
    }
}

/// Index of the first `}` at or after `i`, if any.
pub open spec fn spec_find_close(s: Seq<char>, i: int) -> Option<int>
    decreases s.len() - i,
{
    if i < 0 || i >= s.len() {
        None
    } else if s[i] == '}' {
        Some(i)
    } else {
        spec_find_close(s, i + 1)
    }
}

/// The first `${name}` marker of a token: the first `${` together with the
/// first `}` after it.  `None` when the token carries no complete marker.
pub open spec fn spec_find_marker(s: Seq<char>) -> Option<(int, int)> {
    match spec_find_opener(s, 0) {
        Some(start) => match spec_find_close(s, start + 2) {
            Some(close) => Some((start, close)),
            None => None,
        },
        None => None,
    }
}

/// The placeholder name inside the marker `start .. close`.
pub open spec fn spec_marker_name(s: Seq<char>, start: int, close: int) -> Seq<char> {
    s.subrange(start + 2, close)
}

/// A token that is one placeholder marker and nothing else.
pub open spec fn spec_is_bare_marker(s: Seq<char>) -> bool {
    spec_find_marker(s) == Some((0int, s.len() - 1))
}

/// A value-expecting flag: it begins with `-` and is not one of the two
/// two-character prefixes reserved for runtime-internal options.
pub open spec fn spec_is_value_flag(s: Seq<char>) -> bool {
    s.len() >= 2 && s[0] == '-' && s[1] != 'X' && s[1] != 'D'
}

/// Scan a token for its first placeholder marker.
fn find_marker(t: &str) -> (r: Option<(usize, usize)>)
    ensures
        match r {
            Some(p) => {
                &&& spec_find_marker(t@) == Some((p.0 as int, p.1 as int))
                &&& p.0 + 2 <= p.1 < t@.len()
            },
            None => spec_find_marker(t@) is None,
        },
{
    let n = t.unicode_len();
    let mut i: usize = 0;
    let mut start: usize = 0;
    let mut found = false;
    while !found && n - i > 1
        invariant
            i <= n,
            n == t@.len(),
            found ==> i + 1 < n && spec_find_opener(t@, 0) == Some(i as int) && start == i,
            !found ==> spec_find_opener(t@, 0) == spec_find_opener(t@, i as int),
        decreases n - i, (if found { 0int } else { 1int }),
    {
        if t.get_char(i) == '$' && t.get_char(i + 1) == '{' {
            start = i;
            found = true;
        } else {
            i = i + 1;
        }
    }
    if !found {
        return None;
    }
    let mut j: usize = start + 2;
    while j < n
        invariant
            start + 2 <= j,
            n == t@.len(),
            spec_find_opener(t@, 0) == Some(start as int),
            spec_find_close(t@, start + 2) == spec_find_close(t@, j as int),
        decreases n - j,
    {
        if t.get_char(j) == '}' {
            return Some((start, j));
        }
        j = j + 1;
    }
    None
}

/// Is the token exactly one placeholder marker?
fn is_bare_marker(t: &str) -> (r: bool)
    ensures
        r == spec_is_bare_marker(t@),
{
    let n = t.unicode_len();
    match find_marker(t) {
        Some((start, close)) => start == 0 && close == n - 1,
        None => false,
    }
}

/// Is the token a value-expecting flag?
fn is_value_flag(t: &str) -> (r: bool)
    ensures
        r == spec_is_value_flag(t@),
{
    let n = t.unicode_len();
    if n < 2 {
        return false;
    }
    let c0 = t.get_char(0);
    let c1 = t.get_char(1);
    c0 == '-' && c1 != 'X' && c1 != 'D'
}

// ---------------------------------------------------------------------------
// The template
// ---------------------------------------------------------------------------
/// The value a gated entry contributes: one token or an ordered list.
#[derive(Debug)]
pub enum ArgumentValue {
    Single(String),
    Multiple(Vec<String>),
}

impl ArgumentValue {
    /// The tokens this value contributes, in order.
    pub open spec fn spec_tokens(&self) -> Seq<Seq<char>> {
        match self {
            ArgumentValue::Single(v) => seq![v@],
            ArgumentValue::Multiple(vs) => vs.deep_view(),
        }
    }

    /// The raw token list of this value.
    pub fn raw(self) -> (r: Vec<String>)
        ensures
            r.deep_view() == self.spec_tokens(),
    {
        match self {
            ArgumentValue::Single(value) => {
                let mut out: Vec<String> = Vec::new();
                out.push(value);
                proof {
                    assert(out.deep_view() =~= self.spec_tokens());
                }
                out
            },
            ArgumentValue::Multiple(values) => values,
        }
    }
}

/// One template entry: a literal token, or a rule-gated value.
#[derive(Debug)]
pub enum Argument {
    Literal(String),
    Ruled { rules: Vec<Rule>, value: ArgumentValue },
}

impl Argument {
    /// The tokens this entry contributes under the given features and
    /// host: a literal always contributes itself; a gated entry
    /// contributes its value's tokens exactly when every rule allows it.
    pub open spec fn spec_tokens_if_allowed(
        &self,
        present: Features,
        host: HostPlatform,
    ) -> Seq<Seq<char>> {
        match self {
            Argument::Literal(v) => seq![v@],
            Argument::Ruled { rules, value } => if spec_rules_allow(rules@, present, host) {
                value.spec_tokens()
            } else {
                Seq::empty()
            },
        }
    }

    /// The tokens of this entry, or `None` when its rules deny it.
    pub fn get_if_allowed(self, present_features: Features, host: &HostPlatform) -> (r: Option<
        Vec<String>,
    >)
        ensures
            match r {
                Some(tokens) => tokens.deep_view() == self.spec_tokens_if_allowed(
                    present_features,
                    *host,
                ),
                None => {
                    &&& self matches Argument::Ruled { rules, value } && !spec_rules_allow(
                        rules@,
                        present_features,
                        *host,
                    )
                    &&& self.spec_tokens_if_allowed(present_features, *host) == Seq::<
                        Seq<char>,
                    >::empty()
                },
            },
    {
        match self {
            Argument::Literal(value) => {
                let mut out: Vec<String> = Vec::new();
                out.push(value);
                proof {
                    assert(out.deep_view() =~= self.spec_tokens_if_allowed(
                        present_features,
                        *host,
                    ));
                }
                Some(out)
            },
            Argument::Ruled { rules, value } => {
                if rules_allow(&rules, present_features, host) {
                    Some(value.raw())
                } else {
                    None
                }
            },
        }
    }
}

/// The whole argument template of a version: the structured split form, or
/// the legacy single-string encoding of very old versions, which is
/// recognized but rejected.
#[derive(Debug)]
pub enum Arguments {
    Split { game: Vec<Argument>, jvm: Vec<Argument> },
    Minecraft(String),
}

/// The two ordered token lists of one invocation.
#[derive(Debug)]
pub struct CompiledArguments {
    pub game: Vec<String>,
    pub jvm: Vec<String>,
}

/// Why compilation failed.
#[derive(Debug, Clone, Copy, PartialEq, Eq, Structural)]
pub enum CompileError {
    /// The template uses the legacy single-string encoding, which is
    /// rejected by design rather than parsed.
    UnsupportedEncoding,
}

// ---------------------------------------------------------------------------
// Compilation, specified
// ---------------------------------------------------------------------------
/// The token stream a template part emits before substitution: each
/// entry's contribution under the rule engine, in order.
pub open spec fn spec_active_tokens(
    args: Seq<Argument>,
    present: Features,
    host: HostPlatform,
) -> Seq<Seq<char>>
    decreases args.len(),
{
    if args.len() == 0 {
        Seq::empty()
    } else {
        args[0].spec_tokens_if_allowed(present, host) + spec_active_tokens(
            args.skip(1),
            present,
            host,
        )
    }
}

/// What one token emits on its own: itself if it carries no marker; with a
/// marker, the token with the marked region replaced by the resolved value
/// (prefix and suffix kept), or nothing when resolution fails.
pub open spec fn spec_emit_token(t: Seq<char>, table: Seq<(Seq<char>, Seq<char>)>) -> Seq<
    Seq<char>,
> {
    match spec_find_marker(t) {
        Some((start, close)) => match spec_resolve(table, spec_marker_name(t, start, close)) {
            Some(v) => seq![t.subrange(0, start) + v + t.subrange(close + 1, t.len() as int)],
            None => seq![],
        },
        None => seq![t],
    }
}

/// Substitution over a token stream.  A value-expecting flag immediately
/// followed by a bare placeholder forms an inseparable pair: both are
/// emitted when the placeholder resolves, neither otherwise.  Every other
/// token is emitted on its own.
pub open spec fn spec_emit_stream(
    tokens: Seq<Seq<char>>,
    table: Seq<(Seq<char>, Seq<char>)>,
) -> Seq<Seq<char>>
    decreases tokens.len(),
{
    if tokens.len() == 0 {
        Seq::empty()
    } else if spec_is_value_flag(tokens[0]) && tokens.len() >= 2 && spec_is_bare_marker(
        tokens[1],
    ) {
        let name = spec_marker_name(tokens[1], 0, tokens[1].len() - 1);
        match spec_resolve(table, name) {
            Some(v) => seq![tokens[0], v] + spec_emit_stream(tokens.skip(2), table),
            None => spec_emit_stream(tokens.skip(2), table),
        }
    } else {
        spec_emit_token(tokens[0], table) + spec_emit_stream(tokens.skip(1), table)
    }
}

/// One template part, compiled: rule filtering, then substitution.
pub open spec fn spec_compile_part(
    args: Seq<Argument>,
    table: Seq<(Seq<char>, Seq<char>)>,
    present: Features,
    host: HostPlatform,
) -> Seq<Seq<char>> {
    spec_emit_stream(spec_active_tokens(args, present, host), table)
}

// ---------------------------------------------------------------------------
// Compilation, executed
// ---------------------------------------------------------------------------
/// Collect the token stream a template part emits under the rule engine.
fn collect_active_tokens(
    arguments: &Vec<Argument>,
    present_features: Features,
    host: &HostPlatform,
) -> (r: Vec<String>)
    ensures
        r.deep_view() == spec_active_tokens(arguments@, present_features, *host),
{
    let ghost goal = spec_active_tokens(arguments@, present_features, *host);
    let mut tokens: Vec<String> = Vec::new();
    let mut i: usize = 0;
    proof {
        assert(arguments@.skip(0) =~= arguments@);
        assert(tokens.deep_view() =~= Seq::<Seq<char>>::empty());
    }
    while i < arguments.len()
        invariant
            i <= arguments@.len(),
            goal == spec_active_tokens(arguments@, present_features, *host),
            goal =~= tokens.deep_view() + spec_active_tokens(
                arguments@.skip(i as int),
                present_features,
                *host,
            ),
        decreases arguments@.len() - i,
    {
        proof {
            assert(arguments@.skip(i as int)[0] == arguments@[i as int]);
            assert(arguments@.skip(i as int).skip(1) =~= arguments@.skip(i + 1));
        }
        let arg = &arguments[i];
        match arg {
            Argument::Literal(v) => {
                let ghost before = tokens.deep_view();
                tokens.push(v.clone());
                proof {
                    assert(tokens.deep_view() =~= before.push(v@));
                }
            },
            Argument::Ruled { rules, value } => {
                if rules_allow(rules, present_features, host) {
                    match value {
                        ArgumentValue::Single(v) => {
                            let ghost before = tokens.deep_view();
                            tokens.push(v.clone());
                            proof {
                                assert(tokens.deep_view() =~= before.push(v@));
                            }
                        },
                        ArgumentValue::Multiple(vs) => {
                            let mut j: usize = 0;
                            while j < vs.len()
                                invariant
                                    j <= vs@.len(),
                                    goal =~= tokens.deep_view() + vs.deep_view().skip(j as int)
                                        + spec_active_tokens(
                                        arguments@.skip(i as int).skip(1),
                                        present_features,
                                        *host,
                                    ),
                                decreases vs@.len() - j,
                            {
                                let ghost before = tokens.deep_view();
                                tokens.push(vs[j].clone());
                                proof {
                                    assert(tokens.deep_view() =~= before.push(vs@[j as int]@));
                                    assert(vs.deep_view().skip(j as int)[0] == vs@[j as int]@);
                                    assert(vs.deep_view().skip(j as int).skip(1) =~= vs.deep_view()
                                        .skip(j + 1));
                                }
                                j = j + 1;
                            }
                            proof {
                                assert(vs.deep_view().skip(vs@.len() as int) =~= Seq::<
                                    Seq<char>,
                                >::empty());
                            }
                        },
                    }
                }
            },
        }
        i = i + 1;
    }
    proof {
        assert(spec_active_tokens(arguments@.skip(arguments@.len() as int), present_features, *host)
            =~= Seq::<Seq<char>>::empty());
    }
    tokens
}

/// Substitute placeholders over a collected token stream.
fn emit_stream(tokens: &Vec<String>, table: &PlaceholderTable) -> (r: Vec<String>)
    ensures
        r.deep_view() == spec_emit_stream(tokens.deep_view(), table@),
{
    let ghost stream = tokens.deep_view();
    let mut out: Vec<String> = Vec::new();
    let mut i: usize = 0;
    proof {
        assert(stream.skip(0) =~= stream);
        assert(out.deep_view() =~= Seq::<Seq<char>>::empty());
    }
    while i < tokens.len()
        invariant
            i <= tokens@.len(),
            stream == tokens.deep_view(),
            table@ == table.view(),
            spec_emit_stream(stream, table@) =~= out.deep_view() + spec_emit_stream(
                stream.skip(i as int),
                table@,
            ),
        decreases tokens@.len() - i,
    {
        proof {
            assert(stream.skip(i as int)[0] == stream[i as int]);
            assert(stream.skip(i as int).skip(1) =~= stream.skip(i + 1));
        }
        let t = &tokens[i];
        if is_value_flag(t.as_str()) && i + 1 < tokens.len() && is_bare_marker(
            tokens[i + 1].as_str(),
        ) {
            proof {
                assert(stream.skip(i as int)[1] == stream[i + 1]);
                assert(stream.skip(i as int).skip(2) =~= stream.skip(i + 2));
            }
            let next = &tokens[i + 1];
            let n = next.as_str().unicode_len();
            let name = next.as_str().substring_char(2, n - 1).to_owned();
            match table.resolve(&name) {
                Some(value) => {
                    let ghost before = out.deep_view();
                    out.push(t.clone());
                    out.push(value.clone());
                    proof {
                        assert(out.deep_view() =~= before.push(t@).push(value@));
                    }
                },
                None => {},
            }
            i = i + 2;
        } else {
            match find_marker(t.as_str()) {
                Some((start, close)) => {
                    let name = t.as_str().substring_char(start + 2, close).to_owned();
                    match table.resolve(&name) {
                        Some(value) => {
                            let n = t.as_str().unicode_len();
                            let mut built = t.as_str().substring_char(0, start).to_owned();
                            built.append(value.as_str());
                            built.append(t.as_str().substring_char(close + 1, n));
                            let ghost before = out.deep_view();
                            out.push(built);
                            proof {
                                assert(out.deep_view() =~= before.push(
                                    stream[i as int].subrange(0, start as int) + value@
                                        + stream[i as int].subrange(
                                        close + 1,
                                        stream[i as int].len() as int,
                                    ),
                                ));
                            }
                        },
                        None => {},
                    }
                },
                None => {
                    let ghost before = out.deep_view();
                    out.push(t.clone());
                    proof {
                        assert(out.deep_view() =~= before.push(t@));
                    }
                },
            }
            i = i + 1;
        }
    }
    proof {
        assert(spec_emit_stream(stream.skip(stream.len() as int), table@) =~= Seq::<
            Seq<char>,
        >::empty());
    }
    out
}

/// Compile one template part: rule filtering, then substitution.
fn compile_part(
    arguments: &Vec<Argument>,
    table: &PlaceholderTable,
    present_features: Features,
    host: &HostPlatform,
) -> (r: Vec<String>)
    ensures
        r.deep_view() == spec_compile_part(arguments@, table@, present_features, *host),
{
    let tokens = collect_active_tokens(arguments, present_features, host);
    emit_stream(&tokens, table)
}

impl Arguments {
    /// Compile the template against the session's features, the host and
    /// the caller's resolution table.  The two halves are processed
    /// independently and identically.  The legacy single-string encoding
    /// is rejected as unsupported, never parsed.
    pub fn compile(
        self,
        table: &PlaceholderTable,
        present_features: Features,
        host: &HostPlatform,
    ) -> (r: Result<CompiledArguments, CompileError>)
        ensures
            match self {
                Arguments::Split { game, jvm } => {
                    &&& r matches Ok(c)
                    &&& c.game.deep_view() == spec_compile_part(
                        game@,
                        table@,
                        present_features,
                        *host,
                    )
                    &&& c.jvm.deep_view() == spec_compile_part(
                        jvm@,
                        table@,
                        present_features,
                        *host,
                    )
                },
                Arguments::Minecraft(_) => r matches Err(e) && e == CompileError::UnsupportedEncoding,
            },
    {
        match self {
            Arguments::Split { game, jvm } => Ok(
                CompiledArguments {
                    game: compile_part(&game, table, present_features, host),
                    jvm: compile_part(&jvm, table, present_features, host),
                },
            ),
            Arguments::Minecraft(_) => Err(CompileError::UnsupportedEncoding),
        }
    }
}

} // verus!
