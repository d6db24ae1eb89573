use vstd::prelude::*;

use crate::update::Update;

verus! {

#[verifier::external_type_specification]
#[verifier::external_body]
pub struct ExSviError(svi::Error);

/// What svi's `[[name]]` interpolation makes of `input` with `variables`:
/// the text with each known token replaced and the set of `(value, name)`
/// replacements made, or nothing where the input is malformed (or, when
/// `strict`, names an unknown variable).
pub uninterp spec fn bracket_interpolation(
    input: Seq<char>,
    variables: Map<Seq<char>, Seq<char>>,
    strict: bool,
) -> Option<(Seq<char>, Set<(Seq<char>, Seq<char>)>)>;

/// Whether `s` holds the token opener `[[`.
pub open spec fn has_opener(s: Seq<char>) -> bool {
    exists|i: int| 0 <= i < s.len() - 1 && s[i] == '[' && #[trigger] s[i + 1] == '['
}

/// The map that `(name, value)` pairs make, a later pair overriding an
/// earlier one with the same name.
pub open spec fn pairs_map(pairs: Seq<(String, String)>) -> Map<Seq<char>, Seq<char>>
    decreases pairs.len(),
{
    if pairs.len() == 0 {
        Map::empty()
    } else {
        pairs_map(pairs.drop_last()).insert(pairs.last().0@, pairs.last().1@)
    }
}

/// The set of pairs of `pairs`, as text.
pub open spec fn pairs_set(pairs: Seq<(String, String)>) -> Set<(Seq<char>, Seq<char>)> {
    Set::new(
        |p: (Seq<char>, Seq<char>)|
            exists|i: int| 0 <= i < pairs.len() && (#[trigger] pairs[i]).0@ == p.0 && pairs[i].1@ == p.1,
    )
}

/// No pair occurs twice.
pub open spec fn no_duplicates(pairs: Seq<(String, String)>) -> bool {
    forall|i: int, j: int|
        0 <= i < pairs.len() && 0 <= j < pairs.len() && i != j ==> !((#[trigger] pairs[i]).0@
            == (#[trigger] pairs[j]).0@ && pairs[i].1@ == pairs[j].1@)
}

/// Relies on `svi::interpolate_variables` with the `[[name]]` interpolator:
/// its outcome depends on the input, the variables and strictness alone,
/// and text without `[[` comes back unchanged with no replacements.
#[verifier::external_body]
fn svi_interpolate(input: &str, variables: &Vec<(String, String)>, strict: bool)
    -> (r: Result<(String, Vec<(String, String)>), svi::Error>)
    ensures
        r matches Ok((s, reps)) ==> bracket_interpolation(input@, pairs_map(variables@), strict)
            == Some((s@, pairs_set(reps@))),
        r is Err ==> bracket_interpolation(input@, pairs_map(variables@), strict).is_none(),
        r is Ok || has_opener(input@),
        r matches Ok((s, reps)) ==> (has_opener(input@) || s@ == input@ && reps@.len() == 0),
{
    let map: std::collections::HashMap<String, String> = variables.iter().cloned().collect();
    svi::interpolate_variables(input, &map, svi::Interpolator::DoubleBrackets, strict)
}

/// The global variables and the core secrets that commands may name.
pub struct VariablesAndSecrets {
    pub variables: Vec<(String, String)>,
    pub secrets: Vec<(String, String)>,
}

/// Which pass of an interpolation failed.
#[derive(Clone, Copy, Debug, PartialEq, Eq, Structural)]
pub enum InterpolateError {
    GlobalVariables,
    CoreSecrets,
}

/// A command run on a host: a working directory and a shell line.
pub struct SystemCommand {
    pub path: String,
    pub command: String,
}

/// The first pass over `s`: global variables.
pub open spec fn first_pass(vs: VariablesAndSecrets, s: Seq<char>) -> Option<
    (Seq<char>, Set<(Seq<char>, Seq<char>)>),
> {
    bracket_interpolation(s, pairs_map(vs.variables@), false)
}

/// The second pass over `s`: core secrets.
pub open spec fn second_pass(vs: VariablesAndSecrets, s: Seq<char>) -> Option<
    (Seq<char>, Set<(Seq<char>, Seq<char>)>),
> {
    bracket_interpolation(s, pairs_map(vs.secrets@), false)
}

/// Both passes over a non-empty `s`, when both succeed: the text, the
/// global replacements and the secret replacements.
pub open spec fn both_passes(vs: VariablesAndSecrets, s: Seq<char>) -> Option<
    (Seq<char>, Set<(Seq<char>, Seq<char>)>, Set<(Seq<char>, Seq<char>)>),
> {
    match first_pass(vs, s) {
        None => None,
        Some((t, g)) => match second_pass(vs, t) {
            None => None,
            Some((u, h)) => Some((u, g, h)),
        },
    }
}

/// Adds each pair of `more` to `set` unless it is there already.
pub fn extend_replacers(set: &mut Vec<(String, String)>, more: Vec<(String, String)>)
    requires
        no_duplicates(old(set)@),
    ensures
        no_duplicates(final(set)@),
        pairs_set(final(set)@) == pairs_set(old(set)@).union(pairs_set(more@)),
        final(set)@.subrange(0, old(set)@.len() as int) == old(set)@,
{
    let ghost start = set@;
    let mut i: usize = 0;
    while i < more.len()
        invariant
            i <= more@.len(),
            no_duplicates(set@),
            pairs_set(set@) == pairs_set(start).union(pairs_set(more@.subrange(0, i as int))),
            set@.len() >= start.len(),
            set@.subrange(0, start.len() as int) == start,
        decreases more@.len() - i,
    {
        let mut found = false;
        let mut j: usize = 0;
        while j < set.len()
            invariant
                j <= set@.len(),
                i < more@.len(),
                found == exists|k: int| 0 <= k < j && (#[trigger] set@[k]).0@ == more@[i as int].0@ && set@[k].1@ == more@[i as int].1@,
            decreases set@.len() - j,
        {
            if set[j].0 == more[i].0 && set[j].1 == more[i].1 {
                found = true;
            }
            j = j + 1;
        }
        let ghost before = set@;
        if !found {
            set.push((more[i].0.clone(), more[i].1.clone()));
            proof {
                let s2 = set@;
                assert forall|a: int, b: int|
                    0 <= a < s2.len() && 0 <= b < s2.len() && a != b implies !((#[trigger] s2[a]).0@
                    == (#[trigger] s2[b]).0@ && s2[a].1@ == s2[b].1@) by {
                    if a < before.len() && b < before.len() {
                        assert(s2[a] == before[a] && s2[b] == before[b]);
                    } else if a == before.len() {
                        assert(s2[b] == before[b]);
                    } else {
                        assert(s2[a] == before[a]);
                    }
                }
                assert(s2.subrange(0, start.len() as int) =~= before.subrange(0, start.len() as int));
            }
        }
        proof {
            let p = (more@[i as int].0@, more@[i as int].1@);
            let m1 = more@.subrange(0, i as int);
            let m2 = more@.subrange(0, i + 1);
            assert(pairs_set(m2) =~= pairs_set(m1).insert(p)) by {
                assert forall|q: (Seq<char>, Seq<char>)| pairs_set(m2).contains(q) implies pairs_set(m1).insert(p).contains(q) by {
                    let k = choose|k: int| 0 <= k < m2.len() && (#[trigger] m2[k]).0@ == q.0 && m2[k].1@ == q.1;
                    if k < i {
                        assert(m1[k] == m2[k]);
                    }
                }
                assert forall|q: (Seq<char>, Seq<char>)| pairs_set(m1).insert(p).contains(q) implies pairs_set(m2).contains(q) by {
                    if q == p {
                        assert(m2[i as int] == more@[i as int]);
                    } else {
                        let k = choose|k: int| 0 <= k < m1.len() && (#[trigger] m1[k]).0@ == q.0 && m1[k].1@ == q.1;
                        assert(m1[k] == m2[k]);
                    }
                }
            }
            assert(pairs_set(set@) =~= pairs_set(before).insert(p)) by {
                if found {
                    let k = choose|k: int| 0 <= k < before.len() && (#[trigger] before[k]).0@ == p.0 && before[k].1@ == p.1;
                    assert(pairs_set(before).contains(p));
                } else {
                    let s2 = set@;
                    assert forall|q: (Seq<char>, Seq<char>)| pairs_set(s2).contains(q) implies pairs_set(before).insert(p).contains(q) by {
                        let k = choose|k: int| 0 <= k < s2.len() && (#[trigger] s2[k]).0@ == q.0 && s2[k].1@ == q.1;
                        if k < before.len() {
                            assert(before[k] == s2[k]);
                        }
                    }
                    assert forall|q: (Seq<char>, Seq<char>)| pairs_set(before).insert(p).contains(q) implies pairs_set(s2).contains(q) by {
                        if q == p {
                            assert(s2[before.len() as int].0@ == p.0);
                        } else {
                            let k = choose|k: int| 0 <= k < before.len() && (#[trigger] before[k]).0@ == q.0 && before[k].1@ == q.1;
                            assert(before[k] == s2[k]);
                        }
                    }
                }
            }
        }
        i = i + 1;
    }
    assert(more@.subrange(0, more@.len() as int) =~= more@);
}

/// Interpolates `text` in two passes, global variables then core secrets,
/// adding the replacements of each pass to its set.
fn interpolate_text(
    vs: &VariablesAndSecrets,
    text: &str,
    global_replacers: &mut Vec<(String, String)>,
    secret_replacers: &mut Vec<(String, String)>,
) -> (r: Result<String, InterpolateError>)
    requires
        no_duplicates(old(global_replacers)@),
        no_duplicates(old(secret_replacers)@),
    ensures
        no_duplicates(final(global_replacers)@),
        no_duplicates(final(secret_replacers)@),
        match first_pass(*vs, text@) {
            None => r == Err::<String, InterpolateError>(InterpolateError::GlobalVariables)
                && final(global_replacers)@ == old(global_replacers)@
                && final(secret_replacers)@ == old(secret_replacers)@,
            Some((t, g)) => {
                &&& pairs_set(final(global_replacers)@) == pairs_set(old(global_replacers)@).union(g)
                &&& match second_pass(*vs, t) {
                    None => r == Err::<String, InterpolateError>(InterpolateError::CoreSecrets)
                        && final(secret_replacers)@ == old(secret_replacers)@,
                    Some((u, h)) => (r matches Ok(s) && s@ == u) && pairs_set(
                        final(secret_replacers)@,
                    ) == pairs_set(old(secret_replacers)@).union(h),
                }
            },
        },
{
    let (res, more) = match svi_interpolate(text, &vs.variables, false) {
        Ok(x) => x,
        Err(_) => {
            return Err(InterpolateError::GlobalVariables);
        },
    };
    extend_replacers(global_replacers, more);
    let (res, more) = match svi_interpolate(res.as_str(), &vs.secrets, false) {
        Ok(x) => x,
        Err(_) => {
            return Err(InterpolateError::CoreSecrets);
        },
    };
    extend_replacers(secret_replacers, more);
    Ok(res)
}

/// Interpolates global variables, then core secrets, into `target`, adding
/// the replacements made to the two sets. An empty target is left as it is.
pub fn interpolate_variables_secrets_into_string(
    vs: &VariablesAndSecrets,
    target: &mut String,
    global_replacers: &mut Vec<(String, String)>,
    secret_replacers: &mut Vec<(String, String)>,
) -> (r: Result<(), InterpolateError>)
    requires
        no_duplicates(old(global_replacers)@),
        no_duplicates(old(secret_replacers)@),
    ensures
        no_duplicates(final(global_replacers)@),
        no_duplicates(final(secret_replacers)@),
        old(target)@.len() == 0 ==> r is Ok && final(target)@ == old(target)@
            && final(global_replacers)@ == old(global_replacers)@
            && final(secret_replacers)@ == old(secret_replacers)@,
        old(target)@.len() > 0 ==> match first_pass(*vs, old(target)@) {
            None => r == Err::<(), InterpolateError>(InterpolateError::GlobalVariables)
                && final(target)@ == old(target)@
                && final(global_replacers)@ == old(global_replacers)@
                && final(secret_replacers)@ == old(secret_replacers)@,
            Some((t, g)) => {
                &&& pairs_set(final(global_replacers)@) == pairs_set(old(global_replacers)@).union(g)
                &&& match second_pass(*vs, t) {
                    None => r == Err::<(), InterpolateError>(InterpolateError::CoreSecrets)
                        && final(target)@ == old(target)@
                        && final(secret_replacers)@ == old(secret_replacers)@,
                    Some((u, h)) => r is Ok && final(target)@ == u && pairs_set(
                        final(secret_replacers)@,
                    ) == pairs_set(old(secret_replacers)@).union(h),
                }
            },
        },
{
    if target.as_str().is_empty() {
        return Ok(());
    }
    let res = interpolate_text(vs, target.as_str(), global_replacers, secret_replacers)?;
    *target = res;
    Ok(())
}

/// Interpolates global variables, then core secrets, into the shell line of
/// `command`, adding the replacements made to the two sets. An empty line is
/// left as it is.
pub fn interpolate_variables_secrets_into_system_command(
    vs: &VariablesAndSecrets,
    command: &mut SystemCommand,
    global_replacers: &mut Vec<(String, String)>,
    secret_replacers: &mut Vec<(String, String)>,
) -> (r: Result<(), InterpolateError>)
    requires
        no_duplicates(old(global_replacers)@),
        no_duplicates(old(secret_replacers)@),
    ensures
        no_duplicates(final(global_replacers)@),
        no_duplicates(final(secret_replacers)@),
        final(command).path == old(command).path,
        old(command).command@.len() == 0 ==> r is Ok && final(command).command@ == old(command).command@
            && final(global_replacers)@ == old(global_replacers)@
            && final(secret_replacers)@ == old(secret_replacers)@,
        old(command).command@.len() > 0 ==> match first_pass(*vs, old(command).command@) {
            None => r == Err::<(), InterpolateError>(InterpolateError::GlobalVariables)
                && final(command).command@ == old(command).command@
                && final(global_replacers)@ == old(global_replacers)@
                && final(secret_replacers)@ == old(secret_replacers)@,
            Some((t, g)) => {
                &&& pairs_set(final(global_replacers)@) == pairs_set(old(global_replacers)@).union(g)
                &&& match second_pass(*vs, t) {
                    None => r == Err::<(), InterpolateError>(InterpolateError::CoreSecrets)
                        && final(command).command@ == old(command).command@
                        && final(secret_replacers)@ == old(secret_replacers)@,
                    Some((u, h)) => r is Ok && final(command).command@ == u && pairs_set(
                        final(secret_replacers)@,
                    ) == pairs_set(old(secret_replacers)@).union(h),
                }
            },
        },
{
    if command.command.as_str().is_empty() {
        return Ok(());
    }
    let res = interpolate_text(vs, command.command.as_str(), global_replacers, secret_replacers)?;
    command.command = res;
    Ok(())
}

/// The global replacements made over the non-empty `args`.
pub open spec fn args_global(vs: VariablesAndSecrets, args: Seq<String>) -> Set<(Seq<char>, Seq<char>)>
    decreases args.len(),
{
    if args.len() == 0 {
        Set::empty()
    } else {
        args_global(vs, args.drop_last()).union(
            if args.last()@.len() > 0 && both_passes(vs, args.last()@) is Some {
                both_passes(vs, args.last()@).unwrap().1
            } else {
                Set::empty()
            },
        )
    }
}

/// The secret replacements made over the non-empty `args`.
pub open spec fn args_secret(vs: VariablesAndSecrets, args: Seq<String>) -> Set<(Seq<char>, Seq<char>)>
    decreases args.len(),
{
    if args.len() == 0 {
        Set::empty()
    } else {
        args_secret(vs, args.drop_last()).union(
            if args.last()@.len() > 0 && both_passes(vs, args.last()@) is Some {
                both_passes(vs, args.last()@).unwrap().2
            } else {
                Set::empty()
            },
        )
    }
}

/// What interpolation makes of one argument: empty arguments stay empty.
pub open spec fn interpolated_arg(vs: VariablesAndSecrets, arg: Seq<char>) -> Seq<char> {
    if arg.len() == 0 {
        arg
    } else {
        both_passes(vs, arg).unwrap().0
    }
}

/// Interpolation of `old` stopped at argument `j`, the first that could
/// not be interpolated: the arguments before it are interpolated in `new`,
/// it and those after it are left as they were.
pub open spec fn stopped_at(vs: VariablesAndSecrets, old: Seq<String>, new: Seq<String>, j: int) -> bool {
    &&& 0 <= j < old.len()
    &&& new.len() == old.len()
    &&& old[j]@.len() > 0
    &&& both_passes(vs, old[j]@) is None
    &&& forall|k: int| 0 <= k < j && (#[trigger] old[k])@.len() > 0 ==> both_passes(vs, old[k]@) is Some
    &&& forall|k: int| 0 <= k < j ==> (#[trigger] new[k])@ == interpolated_arg(vs, old[k]@)
    &&& forall|k: int| j <= k < old.len() ==> #[trigger] new[k] == old[k]
}

/// Interpolates global variables, then core secrets, into each non-empty
/// argument of `extra_args`, adding the replacements made to the two sets.
/// It stops at the first argument that cannot be interpolated.
pub fn interpolate_variables_secrets_into_extra_args(
    vs: &VariablesAndSecrets,
    extra_args: &mut Vec<String>,
    global_replacers: &mut Vec<(String, String)>,
    secret_replacers: &mut Vec<(String, String)>,
) -> (r: Result<(), InterpolateError>)
    requires
        no_duplicates(old(global_replacers)@),
        no_duplicates(old(secret_replacers)@),
    ensures
        no_duplicates(final(global_replacers)@),
        no_duplicates(final(secret_replacers)@),
        final(extra_args)@.len() == old(extra_args)@.len(),
        r is Ok <==> forall|i: int|
            0 <= i < old(extra_args)@.len() && (#[trigger] old(extra_args)@[i])@.len() > 0
                ==> both_passes(*vs, old(extra_args)@[i]@) is Some,
        r is Ok ==> forall|i: int|
            0 <= i < old(extra_args)@.len() ==> (#[trigger] final(extra_args)@[i])@
                == interpolated_arg(*vs, old(extra_args)@[i]@),
        r is Ok ==> pairs_set(final(global_replacers)@) == pairs_set(old(global_replacers)@).union(
            args_global(*vs, old(extra_args)@),
        ),
        r is Ok ==> pairs_set(final(secret_replacers)@) == pairs_set(old(secret_replacers)@).union(
            args_secret(*vs, old(extra_args)@),
        ),
        r is Err ==> exists|j: int| #[trigger] stopped_at(*vs, old(extra_args)@, final(extra_args)@, j),
{
    let ghost args = extra_args@;
    let mut i: usize = 0;
    while i < extra_args.len()
        invariant
            i <= extra_args@.len(),
            args == old(extra_args)@,
            extra_args@.len() == args.len(),
            no_duplicates(global_replacers@),
            no_duplicates(secret_replacers@),
            forall|j: int| i <= j < args.len() ==> #[trigger] extra_args@[j] == args[j],
            forall|j: int| 0 <= j < i ==> #[trigger] extra_args@[j]@ == interpolated_arg(*vs, args[j]@),
            forall|j: int| 0 <= j < i && (#[trigger] args[j])@.len() > 0 ==> both_passes(*vs, args[j]@) is Some,
            pairs_set(global_replacers@) == pairs_set(old(global_replacers)@).union(
                args_global(*vs, args.subrange(0, i as int)),
            ),
            pairs_set(secret_replacers@) == pairs_set(old(secret_replacers)@).union(
                args_secret(*vs, args.subrange(0, i as int)),
            ),
        decreases args.len() - i,
    {
        assert(args.subrange(0, i + 1).drop_last() =~= args.subrange(0, i as int));
        assert(args.subrange(0, i + 1).last() == args[i as int]);
        if extra_args[i].as_str().is_empty() {
            assert(args_global(*vs, args.subrange(0, i + 1)) =~= args_global(*vs, args.subrange(0, i as int)));
            assert(args_secret(*vs, args.subrange(0, i + 1)) =~= args_secret(*vs, args.subrange(0, i as int)));
            i = i + 1;
            continue;
        }
        let res = match interpolate_text(vs, extra_args[i].as_str(), global_replacers, secret_replacers) {
            Ok(res) => res,
            Err(e) => {
                assert(args[i as int]@.len() > 0);
                assert(both_passes(*vs, args[i as int]@) is None);
                assert(stopped_at(*vs, args, extra_args@, i as int));
                return Err(e);
            },
        };
        extra_args.set(i, res);
        proof {
            let bp = both_passes(*vs, args[i as int]@).unwrap();
            assert(pairs_set(global_replacers@) =~= pairs_set(old(global_replacers)@).union(
                args_global(*vs, args.subrange(0, i + 1)),
            ));
            assert(pairs_set(secret_replacers@) =~= pairs_set(old(secret_replacers)@).union(
                args_secret(*vs, args.subrange(0, i + 1)),
            ));
        }
        i = i + 1;
    }
    assert(args.subrange(0, args.len() as int) =~= args);
    Ok(())
}

/// One line per global replacement: `<name> => <value>`.
pub open spec fn global_lines(pairs: Seq<(String, String)>) -> Seq<char>
    decreases pairs.len(),
{
    if pairs.len() == 0 {
        Seq::empty()
    } else if pairs.len() == 1 {
        pairs[0].1@ + " => "@ + pairs[0].0@
    } else {
        global_lines(pairs.drop_last()) + "\n"@ + pairs.last().1@ + " => "@ + pairs.last().0@
    }
}

/// One line per secret replacement, naming the secret only:
/// `replaced: <name>`.
pub open spec fn secret_lines(pairs: Seq<(String, String)>) -> Seq<char>
    decreases pairs.len(),
{
    if pairs.len() == 0 {
        Seq::empty()
    } else if pairs.len() == 1 {
        "replaced: "@ + pairs[0].1@
    } else {
        secret_lines(pairs.drop_last()) + "\n"@ + "replaced: "@ + pairs.last().1@
    }
}

fn global_text(pairs: &Vec<(String, String)>) -> (r: String)
    ensures
        r@ == global_lines(pairs@),
{
    let mut out = String::new();
    let mut i: usize = 0;
    while i < pairs.len()
        invariant
            i <= pairs@.len(),
            out@ == global_lines(pairs@.subrange(0, i as int)),
        decreases pairs@.len() - i,
    {
        assert(pairs@.subrange(0, i + 1).drop_last() =~= pairs@.subrange(0, i as int));
        if i > 0 {
            out.append("\n");
        }
        out.append(pairs[i].1.as_str());
        out.append(" => ");
        out.append(pairs[i].0.as_str());
        i = i + 1;
    }
    assert(pairs@.subrange(0, pairs@.len() as int) =~= pairs@);
    out
}

fn secret_text(pairs: &Vec<(String, String)>) -> (r: String)
    ensures
        r@ == secret_lines(pairs@),
{
    let mut out = String::new();
    let mut i: usize = 0;
    while i < pairs.len()
        invariant
            i <= pairs@.len(),
            out@ == secret_lines(pairs@.subrange(0, i as int)),
        decreases pairs@.len() - i,
    {
        assert(pairs@.subrange(0, i + 1).drop_last() =~= pairs@.subrange(0, i as int));
        if i > 0 {
            out.append("\n");
        }
        out.append("replaced: ");
        out.append(pairs[i].1.as_str());
        i = i + 1;
    }
    assert(pairs@.subrange(0, pairs@.len() as int) =~= pairs@);
    out
}

/// Records on `update` which variables were interpolated: global variables
/// with their values, core secrets by name only. A set with no replacement
/// adds no log.
pub fn add_interp_update_log(
    update: &mut Update,
    global_replacers: &Vec<(String, String)>,
    secret_replacers: &Vec<(String, String)>,
    ts: i64,
)
    ensures
        final(update).logs@.len() == old(update).logs@.len() + (if global_replacers@.len() > 0 {
            1int
        } else {
            0int
        }) + (if secret_replacers@.len() > 0 {
            1int
        } else {
            0int
        }),
        final(update).logs@.subrange(0, old(update).logs@.len() as int) == old(update).logs@,
        global_replacers@.len() > 0 ==> {
            let l = final(update).logs@[old(update).logs@.len() as int];
            &&& l.stage@ == "interpolate global variables"@
            &&& l.stdout@ == global_lines(global_replacers@)
            &&& l.stderr@.len() == 0
            &&& l.success
        },
        secret_replacers@.len() > 0 ==> {
            let l = final(update).logs@.last();
            &&& l.stage@ == "interpolate core secrets"@
            &&& l.stdout@ == secret_lines(secret_replacers@)
            &&& l.stderr@.len() == 0
            &&& l.success
        },
        final(update).status == old(update).status,
        final(update).success == old(update).success,
        final(update).id == old(update).id,
        final(update).target == old(update).target,
        final(update).operation == old(update).operation,
        final(update).operator == old(update).operator,
        final(update).start_ts == old(update).start_ts,
        final(update).end_ts == old(update).end_ts,
        final(update).version == old(update).version,
{
    let ghost start = update.logs@;
    if global_replacers.len() > 0 {
        update.push_simple_log("interpolate global variables", global_text(global_replacers), ts);
    }
    let ghost mid = update.logs@;
    if secret_replacers.len() > 0 {
        update.push_simple_log("interpolate core secrets", secret_text(secret_replacers), ts);
        assert(update.logs@.subrange(0, start.len() as int) =~= mid.subrange(0, start.len() as int));
        assert(update.logs@.drop_last() == mid);
    }
    assert(mid.subrange(0, start.len() as int) =~= start);
}

} // verus!
