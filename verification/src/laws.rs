//! Laws of the validator: what holds of every scope, command name and
//! argument value, proved once and for all over the specification model.

use vstd::prelude::*;

use crate::args::ArgsView;
use crate::args::args_empty;
use crate::pattern::regex_match;
use crate::scope::AllowedCommandView;
use crate::scope::ArgTemplateView;
use crate::scope::CommandView;
use crate::scope::ErrorView;
use crate::scope::ScopeView;
use crate::scope::all_fixed;
use crate::scope::fixed_values;
use crate::scope::lookup_command;
use crate::scope::open_gate_spec;
use crate::scope::prepare_spec;
use crate::scope::reconcile_from;
use crate::scope::resolve_args;

verus! {

/// What a successful reconciliation owes position `j`: a fixed entry's
/// value is the template's literal, untouched by caller input; a variable
/// entry's value is the caller's value at the same position, and that value
/// passed the entry's validation pattern.
pub open spec fn entry_resolved(
    entry: ArgTemplateView,
    supplied: Seq<Seq<char>>,
    j: int,
    value: Seq<char>,
) -> bool {
    match entry {
        ArgTemplateView::Fixed(v) => value == v,
        ArgTemplateView::Var(p) => j < supplied.len() && regex_match(p, supplied[j]) && value
            == supplied[j],
    }
}

/// Law: a command name absent from the allowlist fails with `NotFound`,
/// whatever the arguments and entry point; no descriptor is produced.
pub proof fn lemma_absent_command_not_found(
    scope: ScopeView,
    name: Seq<char>,
    args: ArgsView,
    sidecar: Option<Seq<char>>,
)
    requires
        lookup_command(scope.scopes, name) is None,
    ensures
        prepare_spec(scope, name, args, sidecar) == Err::<CommandView, ErrorView>(
            ErrorView::NotFound(name),
        ),
{
}

/// Law: a sidecar record invoked through the non-sidecar entry point, or a
/// non-sidecar record invoked through the sidecar entry point, fails with
/// `BadSidecarFlag` before any argument is examined.
pub proof fn lemma_sidecar_flag_mismatch(
    scope: ScopeView,
    name: Seq<char>,
    args: ArgsView,
    sidecar: Option<Seq<char>>,
)
    requires
        lookup_command(scope.scopes, name) matches Some(cmd) && cmd.sidecar != (sidecar is Some),
    ensures
        prepare_spec(scope, name, args, sidecar) == Err::<CommandView, ErrorView>(
            ErrorView::BadSidecarFlag,
        ),
{
}

/// A successful reconciliation from position `i` on yields one value per
/// remaining template entry, each owed by [`entry_resolved`].
proof fn lemma_reconcile_ok_shape_from(
    template: Seq<ArgTemplateView>,
    supplied: Seq<Seq<char>>,
    i: int,
    out: Seq<Seq<char>>,
)
    requires
        0 <= i <= template.len(),
        reconcile_from(template, supplied, i) == Ok::<Seq<Seq<char>>, ErrorView>(out),
    ensures
        out.len() == template.len() - i,
        forall|j: int|
            i <= j < template.len() ==> entry_resolved(template[j], supplied, j, out[j - i]),
    decreases template.len() - i,
{
    if i < template.len() {
        match template[i] {
            ArgTemplateView::Fixed(v) => {
                let rest = reconcile_from(template, supplied, i + 1)->Ok_0;
                lemma_reconcile_ok_shape_from(template, supplied, i + 1, rest);
                assert forall|j: int|
                    i <= j < template.len() implies entry_resolved(
                    template[j],
                    supplied,
                    j,
                    out[j - i],
                ) by {
                    if j > i {
                        assert(out[j - i] == rest[j - i - 1]);
                    }
                }
            },
            ArgTemplateView::Var(p) => {
                let rest = reconcile_from(template, supplied, i + 1)->Ok_0;
                lemma_reconcile_ok_shape_from(template, supplied, i + 1, rest);
                assert forall|j: int|
                    i <= j < template.len() implies entry_resolved(
                    template[j],
                    supplied,
                    j,
                    out[j - i],
                ) by {
                    if j > i {
                        assert(out[j - i] == rest[j - i - 1]);
                    }
                }
            },
        }
    }
}

/// Law: a successful reconciliation is driven entirely by the template. It
/// yields exactly one value per template entry; a fixed position carries the
/// template's literal regardless of what the caller supplied, and a
/// variable position carries the caller's value at that same position,
/// which passed its validation pattern. Supplied values beyond the
/// template's length never reach the result.
pub proof fn lemma_reconcile_success_shape(
    template: Seq<ArgTemplateView>,
    supplied: Seq<Seq<char>>,
    out: Seq<Seq<char>>,
)
    requires
        reconcile_from(template, supplied, 0) == Ok::<Seq<Seq<char>>, ErrorView>(out),
    ensures
        out.len() == template.len(),
        forall|j: int| 0 <= j < template.len() ==> entry_resolved(template[j], supplied, j, out[j]),
{
    lemma_reconcile_ok_shape_from(template, supplied, 0, out);
}

/// Reconciling an all-fixed template succeeds with its fixed values,
/// whatever the caller supplied.
proof fn lemma_all_fixed_reconcile_from(
    template: Seq<ArgTemplateView>,
    supplied: Seq<Seq<char>>,
    i: int,
)
    requires
        0 <= i <= template.len(),
        all_fixed(template),
    ensures
        reconcile_from(template, supplied, i) == Ok::<Seq<Seq<char>>, ErrorView>(
            fixed_values(template).skip(i),
        ),
    decreases template.len() - i,
{
    if i == template.len() {
        assert(fixed_values(template).skip(i) =~= Seq::<Seq<char>>::empty());
    } else {
        lemma_all_fixed_reconcile_from(template, supplied, i + 1);
        assert(seq![template[i]->Fixed_0] + fixed_values(template).skip(i + 1) =~= fixed_values(
            template,
        ).skip(i));
    }
}

/// Law: a fully constant command may be invoked with an empty argument
/// value — no arguments, a single empty string, or an empty list — and
/// resolves to exactly its fixed values, in template order.
pub proof fn lemma_all_fixed_empty_args(
    name: Seq<char>,
    template: Seq<ArgTemplateView>,
    args: ArgsView,
)
    requires
        all_fixed(template),
        args_empty(args),
    ensures
        resolve_args(name, Some(template), args) == Ok::<Seq<Seq<char>>, ErrorView>(
            fixed_values(template),
        ),
{
    match args {
        ArgsView::List(l) => {
            lemma_all_fixed_reconcile_from(template, l, 0);
            assert(fixed_values(template).skip(0) =~= fixed_values(template));
        },
        _ => {},
    }
}

/// Law: a command without a template accepts the caller's arguments
/// verbatim and unvalidated — no arguments resolve to the empty list, a
/// single string to the one-element list holding it, and a list to itself.
pub proof fn lemma_unconstrained_verbatim(name: Seq<char>, args: ArgsView)
    ensures
        resolve_args(name, None, args) == Ok::<Seq<Seq<char>>, ErrorView>(
            match args {
                ArgsView::NoArgs => Seq::empty(),
                ArgsView::Single(s) => seq![s],
                ArgsView::List(l) => l,
            },
        ),
{
}

/// Law: a command with an empty template rejects a non-empty single-string
/// argument as an invalid input shape. (A non-empty supplied *list* is
/// instead reconciled positionally, where every value lies beyond the
/// template's length and is ignored: see
/// [`lemma_empty_template_ignores_list`].)
pub proof fn lemma_empty_template_rejects_single(
    name: Seq<char>,
    template: Seq<ArgTemplateView>,
    s: Seq<char>,
)
    requires
        template.len() == 0,
        s.len() > 0,
    ensures
        resolve_args(name, Some(template), ArgsView::Single(s)) == Err::<Seq<Seq<char>>, ErrorView>(
            ErrorView::InvalidInput(name),
        ),
{
}

/// A documented boundary of the reconciliation rule: a supplied list is
/// reconciled against an empty template by ignoring every supplied value,
/// so the call succeeds with no arguments at all.
pub proof fn lemma_empty_template_ignores_list(
    name: Seq<char>,
    template: Seq<ArgTemplateView>,
    l: Seq<Seq<char>>,
)
    requires
        template.len() == 0,
    ensures
        resolve_args(name, Some(template), ArgsView::List(l)) == Ok::<Seq<Seq<char>>, ErrorView>(
            Seq::empty(),
        ),
{
}

/// Law: the validator is deterministic. Two outcomes of the same request —
/// same scope, name, argument value and entry point — are the same outcome:
/// the same descriptor, or the same error.
pub proof fn lemma_prepare_deterministic(
    scope: ScopeView,
    name: Seq<char>,
    args: ArgsView,
    sidecar: Option<Seq<char>>,
    r1: Result<CommandView, ErrorView>,
    r2: Result<CommandView, ErrorView>,
)
    requires
        r1 == prepare_spec(scope, name, args, sidecar),
        r2 == prepare_spec(scope, name, args, sidecar),
    ensures
        r1 == r2,
{
}

/// Law: every descriptor built against a template is driven by it — one
/// argument per template entry, a fixed position carrying the template's
/// literal whatever the caller supplied, and, when the caller supplied a
/// list, every variable position carrying the caller's validated value.
pub proof fn lemma_prepare_template_shape(
    scope: ScopeView,
    name: Seq<char>,
    args: ArgsView,
    sidecar: Option<Seq<char>>,
    cmd: AllowedCommandView,
    template: Seq<ArgTemplateView>,
    descriptor: CommandView,
)
    requires
        lookup_command(scope.scopes, name) == Some(cmd),
        cmd.args == Some(template),
        prepare_spec(scope, name, args, sidecar) == Ok::<CommandView, ErrorView>(descriptor),
    ensures
        descriptor.args.len() == template.len(),
        forall|j: int|
            0 <= j < template.len() && template[j] is Fixed ==> descriptor.args[j] == template[j]
                ->Fixed_0,
        args matches ArgsView::List(l) ==> forall|j: int|
            0 <= j < template.len() ==> entry_resolved(template[j], l, j, descriptor.args[j]),
{
    match args {
        ArgsView::List(l) => {
            lemma_reconcile_success_shape(template, l, descriptor.args);
        },
        _ => {
            assert(args_empty(args) && all_fixed(template));
            assert(descriptor.args =~= fixed_values(template));
        },
    }
}

/// Law: with no configured open-path pattern, every path is allowed through
/// the open-path gate unconditionally.
pub proof fn lemma_open_unrestricted(path: Seq<char>)
    ensures
        open_gate_spec(None, path) == Ok::<(), ErrorView>(()),
{
}

/// Law: with a configured open-path pattern, a path is allowed through the
/// gate if and only if it matches the pattern; a non-match fails with
/// `Validation` at position zero, carrying the pattern's source.
pub proof fn lemma_open_gated(pattern: Seq<char>, path: Seq<char>)
    ensures
        regex_match(pattern, path) ==> open_gate_spec(Some(pattern), path) == Ok::<
            (),
            ErrorView,
        >(()),
        !regex_match(pattern, path) ==> open_gate_spec(Some(pattern), path) == Err::<
            (),
            ErrorView,
        >(ErrorView::Validation { index: 0, validation: pattern }),
{
}

} // verus!
