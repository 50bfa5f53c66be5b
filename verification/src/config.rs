//! The rules that a run applies to every record, how a rule list is built
//! from the user's options, and the up-front check of its field indices.

use crate::hash_regex::HashType;
use vstd::prelude::*;

verus! {

/// One rule of the pipeline. Field indices count from zero.
#[derive(Debug, Clone, Copy, PartialEq, Eq, Structural)]
pub enum WorkType {
    /// The number of fields lies within `[min, max]`.
    SpliterLimit(usize, usize),
    /// The byte length of field `item_id` lies within `[min, max]`.
    LenLimit(usize, usize, usize),
    /// Field `item_id` is replaced by its lowercase form.
    ToLower(usize),
    /// Field `item_id` has the shape of an email address.
    IsEmail(usize),
    /// Field `item_id` does not have the shape of a known hash.
    IsHash(usize),
}

/// The options that a user gives for a run.
#[derive(Debug)]
pub struct UserInput {
    pub files: Vec<String>,
    pub config: bool,
    pub prefix: String,
    pub spliters: Vec<String>,
    pub split_min: Option<usize>,
    pub split_max: Option<usize>,
    pub len_index: Option<Vec<usize>>,
    pub len_min: Vec<usize>,
    pub len_max: Vec<usize>,
    pub to_lower_index: Option<Vec<usize>>,
    pub email_index: Option<Vec<usize>>,
    pub hash_index: Option<Vec<usize>>,
    pub hash_types: Vec<HashType>,
}

/// The upper field-count bound used where the user gives only a lower one.
pub const SPLIT_MAX_DEFAULT: usize = 4294967294;

/// The rule list used where the user asks for no custom configuration.
pub open spec fn default_rules() -> Seq<WorkType> {
    seq![
        WorkType::SpliterLimit(2, 3),
        WorkType::LenLimit(0, 5, 40),
        WorkType::LenLimit(1, 5, 137),
        WorkType::ToLower(0),
        WorkType::IsEmail(0),
        WorkType::IsHash(1),
    ]
}

/// The indices that an optional list holds; none where it is absent.
pub open spec fn indices(list: Option<Vec<usize>>) -> Seq<usize> {
    match list {
        Some(v) => v@,
        None => Seq::empty(),
    }
}

/// The `k`-th bound of `bounds`; past its end the first one, and `fallback`
/// where the list is empty.
pub open spec fn bound_at(bounds: Seq<usize>, k: int, fallback: usize) -> usize {
    if 0 <= k < bounds.len() {
        bounds[k]
    } else if bounds.len() > 0 {
        bounds[0]
    } else {
        fallback
    }
}

/// The field-count rule that the options ask for, if any.
pub open spec fn split_rules(input: UserInput) -> Seq<WorkType> {
    match input.split_min {
        Some(min) => seq![
            WorkType::SpliterLimit(
                min,
                match input.split_max {
                    Some(max) => max,
                    None => SPLIT_MAX_DEFAULT,
                },
            ),
        ],
        None => Seq::empty(),
    }
}

/// One length rule for each index of `len_index`, with the bounds paired
/// by position.
pub open spec fn len_rules(input: UserInput) -> Seq<WorkType> {
    Seq::new(
        indices(input.len_index).len(),
        |k: int|
            WorkType::LenLimit(
                indices(input.len_index)[k],
                bound_at(input.len_min@, k, 0),
                bound_at(input.len_max@, k, usize::MAX),
            ),
    )
}

/// The rule list that the options stand for: the default list, or the
/// field-count rule, the length rules, the lowercase rules, the email rules
/// and the hash rules, in this order.
pub open spec fn config_rules(input: UserInput) -> Seq<WorkType> {
    if input.config {
        split_rules(input) + len_rules(input) + indices(input.to_lower_index).map_values(
            |i: usize| WorkType::ToLower(i),
        ) + indices(input.email_index).map_values(|i: usize| WorkType::IsEmail(i)) + indices(
            input.hash_index,
        ).map_values(|i: usize| WorkType::IsHash(i))
    } else {
        default_rules()
    }
}

/// The `k`-th bound of `bounds`, as `bound_at` defines it.
fn pick_bound(bounds: &Vec<usize>, k: usize, fallback: usize) -> (b: usize)
    ensures
        b == bound_at(bounds@, k as int, fallback),
{
    if k < bounds.len() {
        bounds[k]
    } else if bounds.len() > 0 {
        bounds[0]
    } else {
        fallback
    }
}

/// Appends the length rules to `result`.
fn push_len_rules(result: &mut Vec<WorkType>, input: &UserInput)
    ensures
        final(result)@ == old(result)@ + len_rules(*input),
{
    let ghost before = result@;
    match &input.len_index {
        Some(list) => {
            let mut k: usize = 0;
            while k < list.len()
                invariant
                    k <= list.len(),
                    list@ == indices(input.len_index),
                    result@ == before + len_rules(*input).take(k as int),
                decreases list.len() - k,
            {
                result.push(
                    WorkType::LenLimit(
                        list[k],
                        pick_bound(&input.len_min, k, 0),
                        pick_bound(&input.len_max, k, usize::MAX),
                    ),
                );
                k += 1;
                assert(result@ =~= before + len_rules(*input).take(k as int));
            }
            assert(result@ =~= before + len_rules(*input));
        },
        None => {
            assert(result@ =~= before + len_rules(*input));
        },
    }
}

/// The rule of the same kind as `template` for field `i`.
pub open spec fn for_field(template: WorkType, i: usize) -> WorkType {
    match template {
        WorkType::SpliterLimit(min, max) => WorkType::SpliterLimit(min, max),
        WorkType::LenLimit(_, min, max) => WorkType::LenLimit(i, min, max),
        WorkType::ToLower(_) => WorkType::ToLower(i),
        WorkType::IsEmail(_) => WorkType::IsEmail(i),
        WorkType::IsHash(_) => WorkType::IsHash(i),
    }
}

/// Appends one rule of the kind of `template` for each index of `list`.
fn push_field_rules(result: &mut Vec<WorkType>, list: &Option<Vec<usize>>, template: WorkType)
    ensures
        final(result)@ == old(result)@ + indices(*list).map_values(
            |i: usize| for_field(template, i),
        ),
{
    let ghost before = result@;
    let ghost added = indices(*list).map_values(|i: usize| for_field(template, i));
    match list {
        Some(v) => {
            let mut k: usize = 0;
            while k < v.len()
                invariant
                    k <= v.len(),
                    v@ == indices(*list),
                    added == indices(*list).map_values(|i: usize| for_field(template, i)),
                    result@ == before + added.take(k as int),
                decreases v.len() - k,
            {
                let rule = match template {
                    WorkType::SpliterLimit(min, max) => WorkType::SpliterLimit(min, max),
                    WorkType::LenLimit(_, min, max) => WorkType::LenLimit(v[k], min, max),
                    WorkType::ToLower(_) => WorkType::ToLower(v[k]),
                    WorkType::IsEmail(_) => WorkType::IsEmail(v[k]),
                    WorkType::IsHash(_) => WorkType::IsHash(v[k]),
                };
                result.push(rule);
                k += 1;
                assert(result@ =~= before + added.take(k as int));
            }
            assert(result@ =~= before + added);
        },
        None => {
            assert(result@ =~= before + added);
        },
    }
}

/// Builds the rule list from the user's options.
pub fn get_config_2(input: &UserInput) -> (rules: Vec<WorkType>)
    ensures
        rules@ == config_rules(*input),
{
    if input.config {
        let mut result: Vec<WorkType> = Vec::new();
        match input.split_min {
            Some(min) => {
                let max = match input.split_max {
                    Some(max) => max,
                    None => SPLIT_MAX_DEFAULT,
                };
                result.push(WorkType::SpliterLimit(min, max));
            },
            None => {},
        }
        assert(result@ =~= split_rules(*input));
        push_len_rules(&mut result, input);
        push_field_rules(&mut result, &input.to_lower_index, WorkType::ToLower(0));
        push_field_rules(&mut result, &input.email_index, WorkType::IsEmail(0));
        push_field_rules(&mut result, &input.hash_index, WorkType::IsHash(0));
        assert(indices(input.to_lower_index).map_values(
            |i: usize| for_field(WorkType::ToLower(0), i),
        ) =~= indices(input.to_lower_index).map_values(|i: usize| WorkType::ToLower(i)));
        assert(indices(input.email_index).map_values(
            |i: usize| for_field(WorkType::IsEmail(0), i),
        ) =~= indices(input.email_index).map_values(|i: usize| WorkType::IsEmail(i)));
        assert(indices(input.hash_index).map_values(|i: usize| for_field(WorkType::IsHash(0), i))
            =~= indices(input.hash_index).map_values(|i: usize| WorkType::IsHash(i)));
        result
    } else {
        let result = vec![
            WorkType::SpliterLimit(2, 3),
            WorkType::LenLimit(0, 5, 40),
            WorkType::LenLimit(1, 5, 137),
            WorkType::ToLower(0),
            WorkType::IsEmail(0),
            WorkType::IsHash(1),
        ];
        assert(result@ =~= default_rules());
        result
    }
}

/// The field that a rule reads or rewrites, if it names one.
pub open spec fn rule_field(rule: WorkType) -> Option<usize> {
    match rule {
        WorkType::SpliterLimit(_, _) => None,
        WorkType::LenLimit(i, _, _) => Some(i),
        WorkType::ToLower(i) => Some(i),
        WorkType::IsEmail(i) => Some(i),
        WorkType::IsHash(i) => Some(i),
    }
}

/// The number of fields that every record still under evaluation is known
/// to have when rule `k` is reached: one, raised by each earlier
/// field-count rule to its lower bound.
pub open spec fn known_fields(rules: Seq<WorkType>, k: int) -> nat
    decreases k,
{
    if k <= 0 || k > rules.len() {
        1
    } else {
        let prev = known_fields(rules, k - 1);
        match rules[k - 1] {
            WorkType::SpliterLimit(min, _) => if min > prev {
                min as nat
            } else {
                prev
            },
            _ => prev,
        }
    }
}

/// Rule `k` names no field, or one that every record reaching it has.
pub open spec fn rule_in_range(rules: Seq<WorkType>, k: int) -> bool {
    match rule_field(rules[k]) {
        Some(i) => i < known_fields(rules, k),
        None => true,
    }
}

/// No rule of the list can ever name a field that a record lacks.
pub open spec fn rules_valid(rules: Seq<WorkType>) -> bool {
    forall|k: int| 0 <= k < rules.len() ==> #[trigger] rule_in_range(rules, k)
}

/// A rule list that could fault on some record.
#[derive(Debug, Clone, Copy, PartialEq, Eq, Structural)]
pub enum ConfigError {
    /// The rule at position `rule` names the field `field`, which records
    /// reaching it need not have.
    FieldOutOfRange { rule: usize, field: usize },
}

/// Checks once, before any record is read, that no rule names a field that
/// a record reaching it could lack. The error names the first such rule.
pub fn check_rules(rules: &Vec<WorkType>) -> (r: Result<(), ConfigError>)
    ensures
        r is Ok <==> rules_valid(rules@),
        r matches Err(ConfigError::FieldOutOfRange { rule, field }) ==> {
            &&& rule < rules@.len()
            &&& rule_field(rules@[rule as int]) == Some(field)
            &&& !rule_in_range(rules@, rule as int)
            &&& forall|j: int| 0 <= j < rule ==> #[trigger] rule_in_range(rules@, j)
        },
{
    let mut known: usize = 1;
    let mut k: usize = 0;
    while k < rules.len()
        invariant
            k <= rules.len(),
            known == known_fields(rules@, k as int),
            forall|j: int| 0 <= j < k ==> #[trigger] rule_in_range(rules@, j),
        decreases rules.len() - k,
    {
        let field = match rules[k] {
            WorkType::SpliterLimit(min, _) => {
                if min > known {
                    known = min;
                }
                None
            },
            WorkType::LenLimit(i, _, _) => Some(i),
            WorkType::ToLower(i) => Some(i),
            WorkType::IsEmail(i) => Some(i),
            WorkType::IsHash(i) => Some(i),
        };
        match field {
            Some(i) => {
                if i >= known {
                    assert(!rule_in_range(rules@, k as int));
                    return Err(ConfigError::FieldOutOfRange { rule: k, field: i });
                }
            },
            None => {},
        }
        k += 1;
    }
    Ok(())
}

} // verus!
