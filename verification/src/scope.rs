//! The scope configuration model and the validator/builder.
//!
//! A [`Scope`] is an immutable allowlist mapping command names to
//! authorization records. [`Scope::prepare`] and [`Scope::prepare_sidecar`]
//! decide whether a requested invocation is authorized and, on success,
//! build a standalone [`Command`] descriptor. [`Scope::open_gate`] decides
//! whether a path may be handed to the platform "open" handler.

use vstd::prelude::*;

use crate::args::ArgsView;
use crate::args::ExecuteArgs;
use crate::args::args_empty;
use crate::pattern::Pattern;
use crate::pattern::regex_match;

verus! {

/// One position of a command's argument template: a fixed literal, or a
/// variable slot whose runtime value must pass a validation pattern.
pub enum ScopeAllowedArg {
    /// A non-configurable argument, emitted verbatim at its position.
    Fixed(String),
    /// An argument whose value is taken from the caller at the same
    /// position and must match the validation pattern.
    Var {
        /// The validation that the variable value must pass.
        validator: Pattern,
    },
}

/// The model of a template entry: a fixed literal's text, or a variable
/// slot's validation pattern source.
pub ghost enum ArgTemplateView {
    Fixed(Seq<char>),
    Var(Seq<char>),
}

impl View for ScopeAllowedArg {
    type V = ArgTemplateView;

    open spec fn view(&self) -> ArgTemplateView {
        match self {
            ScopeAllowedArg::Fixed(s) => ArgTemplateView::Fixed(s@),
            ScopeAllowedArg::Var { validator } => ArgTemplateView::Var(validator@),
        }
    }
}

impl ScopeAllowedArg {
    /// Whether the template entry is a fixed literal.
    pub fn is_fixed(&self) -> (r: bool)
        ensures
            r == (self@ is Fixed),
    {
        matches!(self, ScopeAllowedArg::Fixed(_))
    }
}

/// One entry of the allowlist: the program to run, the optional argument
/// template, and whether the command is a bundled sidecar.
pub struct ScopeAllowedCommand {
    /// The program to be called: a resolved path for a system command, or a
    /// bundle identifier for a sidecar.
    pub command: String,
    /// The arguments the command is allowed to be called with; `None` means
    /// the caller's arguments are accepted verbatim.
    pub args: Option<Vec<ScopeAllowedArg>>,
    /// Whether this command is a sidecar command.
    pub sidecar: bool,
}

/// The model of an allowlist entry.
pub ghost struct AllowedCommandView {
    pub command: Seq<char>,
    pub args: Option<Seq<ArgTemplateView>>,
    pub sidecar: bool,
}

/// The model of a sequence of template entries.
pub open spec fn template_view(entries: Seq<ScopeAllowedArg>) -> Seq<ArgTemplateView> {
    Seq::new(entries.len(), |i: int| entries[i]@)
}

/// The model of a sequence of strings.
pub open spec fn strings_view(entries: Seq<String>) -> Seq<Seq<char>> {
    Seq::new(entries.len(), |i: int| entries[i]@)
}

impl View for ScopeAllowedCommand {
    type V = AllowedCommandView;

    open spec fn view(&self) -> AllowedCommandView {
        AllowedCommandView {
            command: self.command@,
            args: match self.args {
                Some(entries) => Some(template_view(entries@)),
                None => None,
            },
            sidecar: self.sidecar,
        }
    }
}

/// The scope configuration: the optional open-path pattern and the
/// allowlist, keyed by unique command name. Where a name appears twice, the
/// first entry governs.
pub struct ScopeConfig {
    /// The validation pattern that open-path requests must match; `None`
    /// means any path is allowed through.
    pub open_pattern: Option<Pattern>,
    /// All allowed commands, keyed by their unique command name.
    pub scopes: Vec<(String, ScopeAllowedCommand)>,
}

/// The model of a scope configuration.
pub ghost struct ScopeView {
    pub open_pattern: Option<Seq<char>>,
    pub scopes: Seq<(Seq<char>, AllowedCommandView)>,
}

impl View for ScopeConfig {
    type V = ScopeView;

    open spec fn view(&self) -> ScopeView {
        ScopeView {
            open_pattern: match self.open_pattern {
                Some(p) => Some(p@),
                None => None,
            },
            scopes: Seq::new(self.scopes@.len(), |i: int| (self.scopes@[i].0@, self.scopes@[i].1@)),
        }
    }
}

/// Everything that can go wrong while validating a scoped command or an
/// open-path request. Every failure is terminal for its request; no partial
/// descriptor is ever produced.
pub enum Error {
    /// The entry point's sidecar kind did not match the record's.
    BadSidecarFlag,
    /// The sidecar identifier validated, but the executable could not be
    /// located or built by the embedding program.
    Sidecar(String),
    /// The named command is absent from the allowlist.
    NotFound(String),
    /// A required positional variable had no caller-supplied value.
    MissingVar(usize, String),
    /// A supplied value failed its required validation pattern.
    Validation {
        /// Position of the failing value.
        index: usize,
        /// Source of the pattern the value failed to match.
        validation: String,
    },
    /// The caller-supplied argument shape is structurally incompatible with
    /// the command's template.
    InvalidInput(String),
    /// A wrapped failure from the platform "open" handler.
    Io(String),
}

/// The model of an [`Error`] value.
pub ghost enum ErrorView {
    BadSidecarFlag,
    Sidecar(Seq<char>),
    NotFound(Seq<char>),
    MissingVar(int, Seq<char>),
    Validation { index: int, validation: Seq<char> },
    InvalidInput(Seq<char>),
    Io(Seq<char>),
}

impl View for Error {
    type V = ErrorView;

    open spec fn view(&self) -> ErrorView {
        match self {
            Error::BadSidecarFlag => ErrorView::BadSidecarFlag,
            Error::Sidecar(s) => ErrorView::Sidecar(s@),
            Error::NotFound(s) => ErrorView::NotFound(s@),
            Error::MissingVar(i, p) => ErrorView::MissingVar(*i as int, p@),
            Error::Validation { index, validation } => ErrorView::Validation {
                index: *index as int,
                validation: validation@,
            },
            Error::InvalidInput(s) => ErrorView::InvalidInput(s@),
            Error::Io(s) => ErrorView::Io(s@),
        }
    }
}

/// The invocation descriptor: the validated, ready-to-execute program
/// identifier and argument list. It keeps no reference back to the scope.
pub struct Command {
    /// The program to execute: a resolved path for a system command, or the
    /// bare sidecar name to be materialized by the embedding program.
    pub program: String,
    /// The fully resolved, ordered argument list.
    pub args: Vec<String>,
    /// Whether the program is a sidecar identifier rather than a path.
    pub sidecar: bool,
}

/// The model of an invocation descriptor.
pub ghost struct CommandView {
    pub program: Seq<char>,
    pub args: Seq<Seq<char>>,
    pub sidecar: bool,
}

impl View for Command {
    type V = CommandView;

    open spec fn view(&self) -> CommandView {
        CommandView { program: self.program@, args: strings_view(self.args@), sidecar: self.sidecar }
    }
}

/// The record the allowlist associates with `name`: the first entry whose
/// key equals `name`, if any.
pub open spec fn lookup_command(
    scopes: Seq<(Seq<char>, AllowedCommandView)>,
    name: Seq<char>,
) -> Option<AllowedCommandView>
    decreases scopes.len(),
{
    if scopes.len() == 0 {
        None
    } else if scopes[0].0 == name {
        Some(scopes[0].1)
    } else {
        lookup_command(scopes.drop_first(), name)
    }
}

/// Whether every entry of a template is a fixed literal.
pub open spec fn all_fixed(template: Seq<ArgTemplateView>) -> bool {
    forall|i: int| 0 <= i < template.len() ==> template[i] is Fixed
}

/// The fixed values of an all-fixed template, in order.
pub open spec fn fixed_values(template: Seq<ArgTemplateView>) -> Seq<Seq<char>> {
    Seq::new(template.len(), |i: int| template[i]->Fixed_0)
}

/// Positional reconciliation of a template against a supplied list, from
/// position `i` on: a fixed entry emits its literal; a variable entry
/// requires a supplied value at the same position that matches its pattern,
/// and emits it. The first failing position, scanning left to right,
/// determines the error. Supplied values beyond the template's length are
/// ignored.
pub open spec fn reconcile_from(
    template: Seq<ArgTemplateView>,
    supplied: Seq<Seq<char>>,
    i: int,
) -> Result<Seq<Seq<char>>, ErrorView>
    decreases template.len() - i,
{
    if i >= template.len() {
        Ok(Seq::empty())
    } else {
        match template[i] {
            ArgTemplateView::Fixed(v) => match reconcile_from(template, supplied, i + 1) {
                Ok(rest) => Ok(seq![v] + rest),
                Err(e) => Err(e),
            },
            ArgTemplateView::Var(p) => if i >= supplied.len() {
                Err(ErrorView::MissingVar(i, p))
            } else if !regex_match(p, supplied[i]) {
                Err(ErrorView::Validation { index: i, validation: p })
            } else {
                match reconcile_from(template, supplied, i + 1) {
                    Ok(rest) => Ok(seq![supplied[i]] + rest),
                    Err(e) => Err(e),
                }
            },
        }
    }
}

/// The resolved argument list for a command whose template is `template`,
/// called with `args`; `name` only flavors the error. An absent template
/// accepts the caller's arguments verbatim; a present template is
/// reconciled positionally against a supplied list; an empty argument value
/// may invoke an all-fixed template; every other combination is an invalid
/// input shape.
pub open spec fn resolve_args(
    name: Seq<char>,
    template: Option<Seq<ArgTemplateView>>,
    args: ArgsView,
) -> Result<Seq<Seq<char>>, ErrorView> {
    match (template, args) {
        (None, ArgsView::NoArgs) => Ok(Seq::empty()),
        (None, ArgsView::List(l)) => Ok(l),
        (None, ArgsView::Single(s)) => Ok(seq![s]),
        (Some(t), ArgsView::List(l)) => reconcile_from(t, l, 0),
        (Some(t), a) => if args_empty(a) && all_fixed(t) {
            Ok(fixed_values(t))
        } else {
            Err(ErrorView::InvalidInput(name))
        },
    }
}

/// The final path component of `s`: the suffix after the last `/`.
pub open spec fn basename(s: Seq<char>) -> Seq<char>
    decreases s.len(),
{
    if s.len() == 0 {
        s
    } else if s.last() == '/' {
        Seq::empty()
    } else {
        basename(s.drop_last()).push(s.last())
    }
}

/// The model of an optional sidecar script identifier.
pub open spec fn sidecar_view(sidecar: Option<&str>) -> Option<Seq<char>> {
    match sidecar {
        Some(s) => Some(s@),
        None => None,
    }
}

/// The outcome of validating one invocation request against a scope: the
/// looked-up record's sidecar kind must match the entry point's, the
/// arguments are resolved against the record's template, and the program is
/// the sidecar script's basename for a sidecar call, the record's resolved
/// program otherwise.
pub open spec fn prepare_spec(
    scope: ScopeView,
    name: Seq<char>,
    args: ArgsView,
    sidecar: Option<Seq<char>>,
) -> Result<CommandView, ErrorView> {
    match lookup_command(scope.scopes, name) {
        None => Err(ErrorView::NotFound(name)),
        Some(cmd) => if cmd.sidecar != sidecar is Some {
            Err(ErrorView::BadSidecarFlag)
        } else {
            match resolve_args(name, cmd.args, args) {
                Err(e) => Err(e),
                Ok(resolved) => Ok(
                    CommandView {
                        program: match sidecar {
                            Some(script) => basename(script),
                            None => cmd.command,
                        },
                        args: resolved,
                        sidecar: cmd.sidecar,
                    },
                ),
            }
        },
    }
}

/// The outcome of the open-path gate: with a configured pattern the path
/// must match it; with none, any path is allowed through.
pub open spec fn open_gate_spec(
    open_pattern: Option<Seq<char>>,
    path: Seq<char>,
) -> Result<(), ErrorView> {
    match open_pattern {
        Some(p) => if regex_match(p, path) {
            Ok(())
        } else {
            Err(ErrorView::Validation { index: 0, validation: p })
        },
        None => Ok(()),
    }
}

/// The model of a prepared invocation result.
pub open spec fn prepare_result_view(r: Result<Command, Error>) -> Result<CommandView, ErrorView> {
    match r {
        Ok(c) => Ok(c@),
        Err(e) => Err(e@),
    }
}

/// The model of a resolved argument list result.
pub open spec fn args_result_view(r: Result<Vec<String>, Error>) -> Result<
    Seq<Seq<char>>,
    ErrorView,
> {
    match r {
        Ok(v) => Ok(strings_view(v@)),
        Err(e) => Err(e@),
    }
}

/// The model of an open-path gate result.
pub open spec fn open_result_view(r: Result<(), Error>) -> Result<(), ErrorView> {
    match r {
        Ok(u) => Ok(u),
        Err(e) => Err(e@),
    }
}

impl ScopeAllowedCommand {
    /// Applies the outcome of best-effort path resolution to this entry:
    /// a non-sidecar entry whose program the resolver canonicalized takes
    /// the resolved path; a sidecar entry, or one the resolver failed on,
    /// is left as configured.
    pub fn apply_resolution(self, resolved: Option<String>) -> (r: Self)
        ensures
            r@.args == self@.args,
            r@.sidecar == self@.sidecar,
            r@.command == if !self.sidecar && resolved is Some {
                resolved.unwrap()@
            } else {
                self@.command
            },
    {
        if !self.sidecar {
            match resolved {
                Some(path) => ScopeAllowedCommand { command: path, ..self },
                None => self,
            }
        } else {
            self
        }
    }
}

/// An immutable scope: the authorization table governing which commands,
/// arguments and open paths are permitted.
pub struct Scope(ScopeConfig);

impl View for Scope {
    type V = ScopeView;

    closed spec fn view(&self) -> ScopeView {
        self.0@
    }
}

/// Turns `basename(s.subrange(cut, ..))` into a statement about `basename(s)`:
/// once no separator stands at or after `cut`, and `cut` is either the start
/// or just past a separator, the basename of `s` is exactly that suffix.
proof fn lemma_basename_suffix(s: Seq<char>, cut: int)
    requires
        0 <= cut <= s.len(),
        forall|j: int| cut <= j < s.len() ==> s[j] != '/',
        cut > 0 ==> s[cut - 1] == '/',
    ensures
        basename(s) == s.subrange(cut, s.len() as int),
    decreases s.len() - cut,
{
    if s.len() == cut {
        if cut == 0 {
            assert(basename(s) =~= s.subrange(0, 0));
        } else {
            assert(s.last() == '/');
            assert(basename(s) =~= s.subrange(cut, s.len() as int));
        }
    } else {
        assert(s.last() != '/');
        lemma_basename_suffix(s.drop_last(), cut);
        assert(s.drop_last().subrange(cut, s.drop_last().len() as int).push(s.last()) =~= s
            .subrange(cut, s.len() as int));
    }
}

/// The final path component of `s`: the suffix after the last `/`.
fn basename_exec(s: &str) -> (r: String)
    ensures
        r@ == basename(s@),
{
    let len = s.unicode_len();
    let mut cut: usize = 0;
    let mut j: usize = 0;
    while j < len
        invariant
            len == s@.len(),
            0 <= cut <= j <= len,
            cut > 0 ==> s@[cut - 1] == '/',
            forall|k: int| cut <= k < j ==> s@[k] != '/',
        decreases len - j,
    {
        if s.get_char(j) == '/' {
            cut = j + 1;
        }
        j += 1;
    }
    proof {
        lemma_basename_suffix(s@, cut as int);
    }
    s.substring_char(cut, len).to_owned()
}

/// Reconciles a command's template against the caller's supplied list,
/// building the resolved argument values in template order.
fn reconcile(
    template: &Vec<ScopeAllowedArg>,
    supplied: &Vec<String>,
) -> (r: Result<Vec<String>, Error>)
    ensures
        args_result_view(r) == reconcile_from(template_view(template@), strings_view(supplied@), 0),
{
    let ghost t = template_view(template@);
    let ghost s = strings_view(supplied@);
    let mut out: Vec<String> = Vec::new();
    let mut i: usize = 0;
    proof {
        assert(strings_view(out@) + reconcile_from(t, s, 0)->Ok_0 =~= reconcile_from(
            t,
            s,
            0,
        )->Ok_0);
    }
    while i < template.len()
        invariant
            t == template_view(template@),
            s == strings_view(supplied@),
            0 <= i <= template.len(),
            reconcile_from(t, s, 0) == match reconcile_from(t, s, i as int) {
                Ok(rest) => Ok::<Seq<Seq<char>>, ErrorView>(strings_view(out@) + rest),
                Err(e) => Err::<Seq<Seq<char>>, ErrorView>(e),
            },
        decreases template.len() - i,
    {
        let ghost out_before = out@;
        match &template[i] {
            ScopeAllowedArg::Fixed(fixed) => {
                out.push(fixed.clone());
                proof {
                    assert(strings_view(out@) =~= strings_view(out_before).push(fixed@));
                    if reconcile_from(t, s, i + 1) is Ok {
                        assert(strings_view(out_before) + (seq![fixed@] + reconcile_from(
                            t,
                            s,
                            i + 1,
                        )->Ok_0) =~= strings_view(out@) + reconcile_from(t, s, i + 1)->Ok_0);
                    }
                }
            },
            ScopeAllowedArg::Var { validator } => {
                if i >= supplied.len() {
                    return Err(Error::MissingVar(i, validator.source().to_owned()));
                }
                let value = &supplied[i];
                if validator.is_match(value.as_str()) {
                    out.push(value.clone());
                    proof {
                        assert(strings_view(out@) =~= strings_view(out_before).push(value@));
                        if reconcile_from(t, s, i + 1) is Ok {
                            assert(strings_view(out_before) + (seq![s[i as int]] + reconcile_from(
                                t,
                                s,
                                i + 1,
                            )->Ok_0) =~= strings_view(out@) + reconcile_from(t, s, i + 1)->Ok_0);
                        }
                    }
                } else {
                    return Err(
                        Error::Validation { index: i, validation: validator.source().to_owned() },
                    );
                }
            },
        }
        i += 1;
    }
    proof {
        assert(strings_view(out@) + Seq::<Seq<char>>::empty() =~= strings_view(out@));
    }
    Ok(out)
}

/// Whether every entry of a template is a fixed literal.
fn all_fixed_exec(template: &Vec<ScopeAllowedArg>) -> (r: bool)
    ensures
        r == all_fixed(template_view(template@)),
{
    let mut i: usize = 0;
    while i < template.len()
        invariant
            0 <= i <= template.len(),
            forall|k: int| 0 <= k < i ==> template_view(template@)[k] is Fixed,
        decreases template.len() - i,
    {
        if !template[i].is_fixed() {
            proof {
                assert(!(template_view(template@)[i as int] is Fixed));
            }
            return false;
        }
        i += 1;
    }
    true
}

/// The fixed values of an all-fixed template, in order.
fn fixed_values_exec(template: &Vec<ScopeAllowedArg>) -> (r: Vec<String>)
    requires
        all_fixed(template_view(template@)),
    ensures
        strings_view(r@) == fixed_values(template_view(template@)),
{
    let mut out: Vec<String> = Vec::new();
    let mut i: usize = 0;
    while i < template.len()
        invariant
            all_fixed(template_view(template@)),
            0 <= i <= template.len(),
            strings_view(out@) =~= fixed_values(template_view(template@)).take(i as int),
        decreases template.len() - i,
    {
        let ghost out_before = out@;
        match &template[i] {
            ScopeAllowedArg::Fixed(fixed) => {
                out.push(fixed.clone());
                proof {
                    assert(strings_view(out@) =~= strings_view(out_before).push(fixed@));
                }
            },
            ScopeAllowedArg::Var { .. } => {
                proof {
                    assert(template_view(template@)[i as int] is Fixed);
                }
                return unreached();
            },
        }
        i += 1;
    }
    proof {
        assert(fixed_values(template_view(template@)).take(template@.len() as int) =~= fixed_values(
            template_view(template@),
        ));
    }
    out
}

impl Scope {
    /// Creates a new scope over an already-constructed configuration. Path
    /// resolution for non-sidecar entries is the embedding program's
    /// concern; apply it with [`ScopeAllowedCommand::apply_resolution`]
    /// before wrapping the configuration.
    pub fn new(config: ScopeConfig) -> (r: Self)
        ensures
            r@ == config@,
    {
        Scope(config)
    }

    /// The position of the entry the allowlist associates with `name`.
    fn find_index(&self, name: &str) -> (r: Option<usize>)
        ensures
            match r {
                Some(i) => i < self.0.scopes.len() && lookup_command(self@.scopes, name@) == Some(
                    self@.scopes[i as int].1,
                ),
                None => lookup_command(self@.scopes, name@) is None,
            },
    {
        let name_key: String = name.to_owned();
        let mut i: usize = 0;
        proof {
            assert(self@.scopes.skip(0) =~= self@.scopes);
        }
        while i < self.0.scopes.len()
            invariant
                0 <= i <= self.0.scopes.len(),
                name_key@ == name@,
                lookup_command(self@.scopes, name@) == lookup_command(
                    self@.scopes.skip(i as int),
                    name@,
                ),
            decreases self.0.scopes.len() - i,
        {
            proof {
                assert(self@.scopes.skip(i as int)[0] == self@.scopes[i as int]);
            }
            if self.0.scopes[i].0 == name_key {
                return Some(i);
            }
            proof {
                assert(self@.scopes.skip(i as int).drop_first() =~= self@.scopes.skip(
                    i as int + 1,
                ));
            }
            i += 1;
        }
        None
    }

    /// The shared decision procedure behind [`Scope::prepare`] and
    /// [`Scope::prepare_sidecar`].
    fn prepare_impl(&self, command_name: &str, args: ExecuteArgs, sidecar: Option<&str>) -> (r:
        Result<Command, Error>)
        ensures
            prepare_result_view(r) == prepare_spec(
                self@,
                command_name@,
                args@,
                sidecar_view(sidecar),
            ),
    {
        let index = match self.find_index(command_name) {
            Some(i) => i,
            None => {
                return Err(Error::NotFound(command_name.to_owned()));
            },
        };
        let cmd = &self.0.scopes[index].1;

        if cmd.sidecar != sidecar.is_some() {
            return Err(Error::BadSidecarFlag);
        }

        let resolved = match (&cmd.args, args) {
            (None, ExecuteArgs::NoArgs) => {
                let empty: Vec<String> = Vec::new();
                proof {
                    assert(strings_view(empty@) =~= Seq::<Seq<char>>::empty());
                }
                empty
            },
            (None, ExecuteArgs::List(list)) => {
                proof {
                    assert(strings_view(list@) =~= Seq::new(list@.len(), |i: int| list@[i]@));
                }
                list
            },
            (None, ExecuteArgs::Single(string)) => {
                let ghost sv = string@;
                let mut one = Vec::new();
                one.push(string);
                proof {
                    assert(strings_view(one@) =~= seq![sv]);
                }
                one
            },
            (Some(template), ExecuteArgs::List(supplied)) => {
                match reconcile(template, &supplied) {
                    Ok(values) => values,
                    Err(e) => {
                        return Err(e);
                    },
                }
            },
            (Some(template), other) => {
                if other.is_empty() && all_fixed_exec(template) {
                    fixed_values_exec(template)
                } else {
                    return Err(Error::InvalidInput(command_name.to_owned()));
                }
            },
        };

        let program = match sidecar {
            Some(script) => basename_exec(script),
            None => cmd.command.clone(),
        };

        Ok(Command { program, args: resolved, sidecar: cmd.sidecar })
    }

    /// Validates the request against the allowlist and builds the
    /// invocation descriptor for a non-sidecar command.
    pub fn prepare(&self, command_name: &str, args: ExecuteArgs) -> (r: Result<Command, Error>)
        ensures
            prepare_result_view(r) == prepare_spec(self@, command_name@, args@, None),
    {
        self.prepare_impl(command_name, args, None)
    }

    /// Validates the request against the allowlist and builds the
    /// invocation descriptor for a sidecar command. The descriptor's program
    /// is the script's final path component; materializing the actual
    /// sidecar executable from it is the embedding program's concern.
    pub fn prepare_sidecar(&self, command_name: &str, command_script: &str, args: ExecuteArgs) -> (r:
        Result<Command, Error>)
        ensures
            prepare_result_view(r) == prepare_spec(
                self@,
                command_name@,
                args@,
                Some(command_script@),
            ),
    {
        self.prepare_impl(command_name, args, Some(command_script))
    }

    /// Decides whether `path` may be handed to the platform "open" handler:
    /// with a configured pattern the path must match it; with none, any
    /// path is allowed through. The delegation itself is the embedding
    /// program's concern.
    pub fn open_gate(&self, path: &str) -> (r: Result<(), Error>)
        ensures
            open_result_view(r) == open_gate_spec(self@.open_pattern, path@),
    {
        match &self.0.open_pattern {
            Some(pattern) => {
                if pattern.is_match(path) {
                    Ok(())
                } else {
                    Err(Error::Validation { index: 0, validation: pattern.source().to_owned() })
                }
            },
            None => Ok(()),
        }
    }
}

} // verus!
