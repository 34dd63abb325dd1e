//! The per-file job plan of an image batch: what the prompt resolved for
//! each input, and the parameter sets each input is processed with.

use vstd::prelude::*;
use crate::params::{ProcessParams, ProcessParamsView, format_params_summary, merge_params, merged, spec_params_summary, unset_params};
use crate::prompt::{PromptFileResult, expand_file_variants, params_list_view, spec_variant_at, variant_formats, variant_sizes};
use crate::naming::{display_of, display_name, file_name_of, path_file_name};
use crate::text::{add_part, owned, str_eq, strings_view};

verus! {

/// The prompt's answer for a batch: for each input name, its variants, in
/// the order the answers came. A later entry for the same name replaces an
/// earlier one, as inserting into a map does.
pub type PromptPlan = Vec<(String, Vec<ProcessParams>)>;

/// The abstract value of a prompt plan.
pub open spec fn plan_view(plan: Seq<(String, Vec<ProcessParams>)>) -> Seq<(Seq<char>, Seq<ProcessParamsView>)> {
    plan.map_values(|e: (String, Vec<ProcessParams>)| (e.0@, params_list_view(e.1@)))
}

/// The variants the plan holds for `name`: those of its last entry with
/// that name.
pub open spec fn plan_lookup(plan: Seq<(Seq<char>, Seq<ProcessParamsView>)>, name: Seq<char>) -> Option<Seq<ProcessParamsView>>
    decreases plan.len(),
{
    if plan.len() == 0 {
        None
    } else if plan.last().0 == name {
        Some(plan.last().1)
    } else {
        plan_lookup(plan.drop_last(), name)
    }
}

/// The name the `i`th answer is filed under: the name of the `i`th input
/// when there is one (so names with spaces are always found, however the
/// prompt echoes them), else the name the answer itself gives.
pub open spec fn answer_key(input_names: Seq<Seq<char>>, answers: Seq<PromptFileResult>, i: int) -> Seq<char> {
    if i < input_names.len() {
        input_names[i]
    } else {
        answers[i].filename@
    }
}

/// File each of the prompt's answers under its input's name, expanded into
/// its variants: entry `i` is the `i`th answer.
pub fn prompt_plan(input_names: &Vec<String>, answers: &Vec<PromptFileResult>) -> (r: PromptPlan)
    ensures
        r@.len() == answers@.len(),
        forall|i: int| 0 <= i < r@.len() ==> (#[trigger] r@[i]).0@ == answer_key(
            crate::text::strings_view(input_names@),
            answers@,
            i,
        ),
        forall|i: int| #![trigger r@[i]] 0 <= i < r@.len() ==> r@[i].1@.len() == variant_sizes(answers@[i]).len() * variant_formats(answers@[i]).len()
            && forall|k: int| 0 <= k < r@[i].1@.len() ==> (#[trigger] r@[i].1@[k])@ == spec_variant_at(answers@[i], k),
{
    let mut plan: PromptPlan = Vec::new();
    let n = answers.len();
    let mut i: usize = 0;
    while i < n
        invariant
            n == answers@.len(),
            i <= n,
            plan@.len() == i,
            forall|j: int| 0 <= j < i ==> (#[trigger] plan@[j]).0@ == answer_key(
                crate::text::strings_view(input_names@),
                answers@,
                j,
            ),
            forall|j: int| #![trigger plan@[j]] 0 <= j < i ==> plan@[j].1@.len() == variant_sizes(answers@[j]).len() * variant_formats(answers@[j]).len()
                && forall|k: int| 0 <= k < plan@[j].1@.len() ==> (#[trigger] plan@[j].1@[k])@ == spec_variant_at(answers@[j], k),
        decreases n - i,
    {
        let variants = expand_file_variants(&answers[i]);
        let key = if i < input_names.len() {
            input_names[i].clone()
        } else {
            answers[i].filename.clone()
        };
        plan.push((key, variants));
        i = i + 1;
    }
    plan
}

/// A copy of a list of parameter sets.
pub fn clone_params_list(v: &Vec<ProcessParams>) -> (r: Vec<ProcessParams>)
    ensures
        params_list_view(r@) == params_list_view(v@),
{
    let mut r: Vec<ProcessParams> = Vec::new();
    let mut i: usize = 0;
    while i < v.len()
        invariant
            i <= v@.len(),
            params_list_view(r@) == params_list_view(v@).take(i as int),
        decreases v@.len() - i,
    {
        let ghost before = r@;
        let c = v[i].clone();
        r.push(c);
        assert(params_list_view(r@) =~= params_list_view(before).push(c@));
        assert(params_list_view(r@) =~= params_list_view(v@).take(i + 1));
        i = i + 1;
    }
    assert(params_list_view(v@).take(v@.len() as int) =~= params_list_view(v@));
    r
}

/// The variants the plan holds for `name`, if any (see [`plan_lookup`]).
pub fn lookup_variants(plan: &PromptPlan, name: &str) -> (r: Option<Vec<ProcessParams>>)
    ensures
        match r {
            Some(v) => plan_lookup(plan_view(plan@), name@) == Some(params_list_view(v@)),
            None => plan_lookup(plan_view(plan@), name@) is None,
        },
{
    let ghost pv = plan_view(plan@);
    let n = plan.len();
    let mut found: Option<usize> = None;
    let mut i: usize = 0;
    while i < n
        invariant
            n == plan@.len(),
            pv == plan_view(plan@),
            i <= n,
            match found {
                Some(j) => j < i && plan_lookup(pv.take(i as int), name@) == Some(pv[j as int].1),
                None => plan_lookup(pv.take(i as int), name@) is None,
            },
        decreases n - i,
    {
        assert(pv.take(i + 1).drop_last() =~= pv.take(i as int));
        assert(pv.take(i + 1).last() == pv[i as int]);
        if str_eq(plan[i].0.as_str(), name) {
            found = Some(i);
        }
        i = i + 1;
    }
    assert(pv.take(n as int) =~= pv);
    match found {
        Some(j) => Some(clone_params_list(&plan[j].1)),
        None => None,
    }
}

/// Every input path has a file name.
pub open spec fn all_named(paths: Seq<Seq<char>>) -> bool {
    forall|i: int| 0 <= i < paths.len() ==> (#[trigger] path_file_name(paths[i])) is Some
}

/// The file names of a list of inputs that all have one.
pub open spec fn file_names(paths: Seq<Seq<char>>) -> Seq<Seq<char>> {
    paths.map_values(|p: Seq<char>| path_file_name(p)->0)
}

/// The file names of the inputs, in order; nothing when one has none.
pub fn input_file_names(paths: &Vec<String>) -> (r: Option<Vec<String>>)
    ensures
        r is Some <==> all_named(strings_view(paths@)),
        r matches Some(v) ==> strings_view(v@) == file_names(strings_view(paths@)),
{
    let ghost pv = strings_view(paths@);
    let mut names: Vec<String> = Vec::new();
    let mut i: usize = 0;
    while i < paths.len()
        invariant
            pv == strings_view(paths@),
            i <= paths@.len(),
            forall|k: int| 0 <= k < i ==> (#[trigger] path_file_name(pv[k])) is Some,
            strings_view(names@) == file_names(pv.take(i as int)),
        decreases paths@.len() - i,
    {
        assert(pv[i as int] == paths@[i as int]@);
        match file_name_of(paths[i].as_str()) {
            Some(n) => {
                assert(pv.take(i + 1) =~= pv.take(i as int).push(pv[i as int]));
                let ghost before = strings_view(names@);
                let ghost nv = n@;
                names.push(n);
                assert(strings_view(names@) =~= before.push(nv));
                assert(file_names(pv.take(i + 1)) =~= file_names(pv.take(i as int)).push(
                    path_file_name(pv[i as int])->0,
                ));
                assert(strings_view(names@) =~= file_names(pv.take(i + 1)));
            },
            None => {
                assert(path_file_name(pv[i as int]) is None);
                return None;
            },
        }
        i = i + 1;
    }
    assert(pv.take(paths@.len() as int) =~= pv);
    Some(names)
}

/// The prompt's answers filed under the file names of the input paths (see
/// [`prompt_plan`]); nothing when an input has no file name.
pub fn plan_for_inputs(paths: &Vec<String>, answers: &Vec<PromptFileResult>) -> (r: Option<PromptPlan>)
    ensures
        r is Some <==> all_named(strings_view(paths@)),
        r matches Some(plan) ==> {
            &&& plan@.len() == answers@.len()
            &&& forall|i: int| 0 <= i < plan@.len() ==> (#[trigger] plan@[i]).0@ == answer_key(
                file_names(strings_view(paths@)),
                answers@,
                i,
            )
            &&& forall|i: int| #![trigger plan@[i]] 0 <= i < plan@.len() ==> plan@[i].1@.len()
                == variant_sizes(answers@[i]).len() * variant_formats(answers@[i]).len() && forall|k: int|
                0 <= k < plan@[i].1@.len() ==> (#[trigger] plan@[i].1@[k])@ == spec_variant_at(answers@[i], k)
        },
{
    match input_file_names(paths) {
        Some(names) => Some(prompt_plan(&names, answers)),
        None => None,
    }
}

/// The parameter sets an input is processed with. Without a prompt, just
/// the explicit ones; with one, each variant the prompt gave the input (or
/// one unset set when it gave none) under the explicit parameters.
pub open spec fn spec_file_variants(
    plan: Option<Seq<(Seq<char>, Seq<ProcessParamsView>)>>,
    name: Seq<char>,
    explicit: ProcessParamsView,
) -> Seq<ProcessParamsView> {
    match plan {
        None => seq![explicit],
        Some(pl) => {
            let base = match plan_lookup(pl, name) {
                Some(v) => v,
                None => seq![unset_params()],
            };
            base.map_values(|b: ProcessParamsView| merged(b, explicit))
        },
    }
}

/// The parameter sets input `name` is processed with (see [`spec_file_variants`]).
pub fn file_variants(plan: &Option<PromptPlan>, name: &str, explicit: &ProcessParams) -> (r: Vec<ProcessParams>)
    ensures
        params_list_view(r@) == spec_file_variants(
            match *plan {
                Some(p) => Some(plan_view(p@)),
                None => None,
            },
            name@,
            explicit@,
        ),
{
    match plan {
        None => {
            let r = vec![explicit.clone()];
            assert(params_list_view(r@) =~= seq![explicit@]);
            r
        },
        Some(pl) => {
            let base = match lookup_variants(pl, name) {
                Some(v) => v,
                None => vec![ProcessParams::default()],
            };
            let ghost bv = params_list_view(base@);
            let mut r: Vec<ProcessParams> = Vec::new();
            let mut i: usize = 0;
            let n = base.len();
            while i < n
                invariant
                    n == base@.len(),
                    bv == params_list_view(base@),
                    i <= n,
                    params_list_view(r@) == bv.take(i as int).map_values(
                        |b: ProcessParamsView| merged(b, explicit@),
                    ),
                decreases n - i,
            {
                let ghost before = r@;
                let m = merge_params(base[i].clone(), explicit.clone());
                r.push(m);
                assert(params_list_view(r@) =~= params_list_view(before).push(m@));
                assert(params_list_view(r@) =~= bv.take(i + 1).map_values(
                    |b: ProcessParamsView| merged(b, explicit@),
                ));
                i = i + 1;
            }
            assert(bv.take(n as int) =~= bv);
            r
        },
    }
}

/// The parameter sets the input at `path` is processed with: those of its
/// file name (see [`spec_file_variants`]).
pub fn variants_for_path(plan: &Option<PromptPlan>, path: &str, explicit: &ProcessParams) -> (r: Vec<
    ProcessParams,
>)
    ensures
        params_list_view(r@) == spec_file_variants(
            match *plan {
                Some(p) => Some(plan_view(p@)),
                None => None,
            },
            display_of(path@),
            explicit@,
        ),
{
    file_variants(plan, display_name(path).as_str(), explicit)
}

/// The label a job is reported under: the input's name, with the variant's
/// name suffix when it has one.
pub fn job_label(name: &str, params: &ProcessParams) -> (r: String)
    ensures
        r@ == match crate::error::opt_str(params.out_name_suffix) {
            Some(s) => name@ + s,
            None => name@,
        },
{
    match &params.out_name_suffix {
        Some(s) => owned(name).concat(s.as_str()),
        None => owned(name),
    }
}

/// The lines describing what the prompt resolved for one input: nothing when
/// it resolved nothing; one line for one variant; a header and a line per
/// variant otherwise.
pub open spec fn summary_lines_for(plan: Seq<(Seq<char>, Seq<ProcessParamsView>)>, name: Seq<char>) -> Seq<Seq<char>> {
    match plan_lookup(plan, name) {
        None => seq![],
        Some(vs) => if vs.len() == 1 {
            seq!["  "@ + name + " → "@ + spec_params_summary(vs[0])]
        } else {
            seq!["  "@ + name + " →"@] + vs.map_values(|v: ProcessParamsView| "    "@ + spec_params_summary(v))
        },
    }
}

/// The lines for inputs `names`, in order.
pub open spec fn summary_lines(plan: Seq<(Seq<char>, Seq<ProcessParamsView>)>, names: Seq<Seq<char>>) -> Seq<Seq<char>>
    decreases names.len(),
{
    if names.len() == 0 {
        seq![]
    } else {
        summary_lines(plan, names.drop_last()) + summary_lines_for(plan, names.last())
    }
}

fn lines_for(plan: &PromptPlan, name: &String, lines: &mut Vec<String>)
    ensures
        strings_view(final(lines)@) == strings_view(old(lines)@) + summary_lines_for(plan_view(plan@), name@),
{
    let ghost l0 = strings_view(lines@);
    match lookup_variants(plan, name.as_str()) {
        None => {
            assert(strings_view(lines@) =~= l0 + summary_lines_for(plan_view(plan@), name@));
        },
        Some(vs) => {
            let ghost vv = params_list_view(vs@);
            if vs.len() == 1 {
                let line = owned("  ").concat(name.as_str()).concat(" → ").concat(
                    format_params_summary(&vs[0]).as_str(),
                );
                add_part(lines, line);
                assert(strings_view(lines@) =~= l0 + summary_lines_for(plan_view(plan@), name@));
            } else {
                add_part(lines, owned("  ").concat(name.as_str()).concat(" →"));
                let ghost l1 = strings_view(lines@);
                let mut i: usize = 0;
                while i < vs.len()
                    invariant
                        vv == params_list_view(vs@),
                        i <= vs@.len(),
                        strings_view(lines@) == l1 + vv.take(i as int).map_values(
                            |v: ProcessParamsView| "    "@ + spec_params_summary(v),
                        ),
                    decreases vs@.len() - i,
                {
                    let line = owned("    ").concat(format_params_summary(&vs[i]).as_str());
                    add_part(lines, line);
                    assert(vv.take(i + 1) =~= vv.take(i as int).push(vv[i as int]));
                    assert(vv.take(i + 1).map_values(|v: ProcessParamsView| "    "@ + spec_params_summary(v))
                        =~= vv.take(i as int).map_values(|v: ProcessParamsView| "    "@ + spec_params_summary(v)).push("    "@ + spec_params_summary(vv[i as int])));
                    i = i + 1;
                }
                assert(vv.take(vs@.len() as int) =~= vv);
                assert(strings_view(lines@) =~= l0 + summary_lines_for(plan_view(plan@), name@));
            }
        },
    }
}

/// What the prompt resolved, input by input: a heading, then the lines of
/// [`summary_lines`].
pub fn print_prompt_summary(names: &Vec<String>, plan: &PromptPlan) -> (r: Vec<String>)
    ensures
        strings_view(r@) == seq!["Interpreted:"@] + summary_lines(plan_view(plan@), strings_view(names@)),
{
    let mut lines: Vec<String> = Vec::new();
    add_part(&mut lines, owned("Interpreted:"));
    let ghost head = strings_view(lines@);
    assert(head =~= seq!["Interpreted:"@]);
    let ghost nv = strings_view(names@);
    let mut i: usize = 0;
    while i < names.len()
        invariant
            nv == strings_view(names@),
            i <= names@.len(),
            strings_view(lines@) == head + summary_lines(plan_view(plan@), nv.take(i as int)),
        decreases names@.len() - i,
    {
        let ghost before = strings_view(lines@);
        lines_for(plan, &names[i], &mut lines);
        assert(nv.take(i + 1).drop_last() =~= nv.take(i as int));
        assert(strings_view(lines@) =~= head + summary_lines(plan_view(plan@), nv.take(i + 1)));
        i = i + 1;
    }
    assert(nv.take(names@.len() as int) =~= nv);
    lines
}

} // verus!
