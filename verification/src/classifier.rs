//! The rule pipeline: rules are applied to a record in order, the first one
//! that rejects the record names its bucket, and a record that no rule
//! rejects is good.

use crate::catalog::{byte_len, catalog_model, detect_hash, hash_label, HashValue, PatternModel};
use crate::config::{known_fields, rule_field, rule_in_range, rules_valid, WorkType};
use crate::hash_regex::{match_result, pattern_matches, PatternError};
use crate::tokenizer::{join_fields, joined, texts, tokenize, tokens};
use std::collections::HashMap;
use vstd::prelude::*;
use vstd::string::StringExecFns;
use vstd::utf8::{decode_utf8, valid_utf8};

verus! {

/// The lowercase form of `text` by the Unicode rules of the standard library.
pub uninterp spec fn lowercase_of(text: Seq<char>) -> Seq<char>;

/// The text that a byte string decodes to when every malformed sequence is
/// replaced by the replacement character.
pub uninterp spec fn utf8_lossy(bytes: Seq<u8>) -> Seq<char>;

/// Calls `str::to_lowercase`. Trusted: the result depends on the text alone.
#[verifier::external_body]
fn to_lowercase(text: &str) -> (lowered: String)
    ensures
        lowered@ == lowercase_of(text@),
{
    text.to_lowercase()
}

/// Calls `String::from_utf8_lossy` and takes ownership of what it returns.
/// Trusted: the result depends on the bytes alone, and well-formed UTF-8
/// decodes to the text that it encodes.
#[verifier::external_body]
fn decode_lossy(bytes: &[u8]) -> (text: String)
    ensures
        text@ == utf8_lossy(bytes@),
        valid_utf8(bytes@) ==> text@ == decode_utf8(bytes@),
{
    String::from_utf8_lossy(bytes).into_owned()
}

/// A record under evaluation: its fields, and the line that will be
/// written for it.
#[derive(Debug, Clone, PartialEq, Eq)]
pub struct Record {
    pub fields: Vec<String>,
    pub line: String,
}

/// A record in mathematical terms.
pub ghost struct RecordModel {
    pub fields: Seq<Seq<char>>,
    pub line: Seq<char>,
}

impl View for Record {
    type V = RecordModel;

    open spec fn view(&self) -> RecordModel {
        RecordModel { fields: texts(self.fields@), line: self.line@ }
    }
}

/// Where a record goes: the good output, or the bad bucket of a label.
#[derive(Debug, Clone, PartialEq, Eq)]
pub enum Outcome {
    Good,
    Bad(String),
}

impl View for Outcome {
    type V = Option<Seq<char>>;

    /// The label of the bad bucket; `None` for the good output.
    open spec fn view(&self) -> Option<Seq<char>> {
        match self {
            Outcome::Good => None,
            Outcome::Bad(label) => Some(label@),
        }
    }
}

/// A classified record: its outcome and the line to write.
#[derive(Debug, Clone, PartialEq, Eq)]
pub struct Classified {
    pub outcome: Outcome,
    pub line: String,
}

/// A classified record in mathematical terms.
pub ghost struct ClassifiedModel {
    pub outcome: Option<Seq<char>>,
    pub line: Seq<char>,
}

impl View for Classified {
    type V = ClassifiedModel;

    open spec fn view(&self) -> ClassifiedModel {
        ClassifiedModel { outcome: self.outcome@, line: self.line@ }
    }
}

/// What one rule does to a record.
pub ghost enum Step {
    /// The rule passes; evaluation goes on with this record.
    Next(RecordModel),
    /// The rule rejects the record into the bucket of this label.
    Stop(Seq<char>),
    /// A pattern that the rule needs does not compile.
    Fault(PatternError),
}

/// The record that a line is read as: its fields are its tokens.
pub open spec fn record_of(line: Seq<char>, spliters: Seq<char>) -> RecordModel {
    RecordModel { fields: tokens(line, spliters), line }
}

/// The pattern that an email address has to match, case-insensitively.
pub open spec fn mail_pattern() -> Seq<char> {
    r"^\b[A-Za-z0-9._+-]+@[A-Za-z0-9.-]+\.[A-Z|a-z]{2,7}\b$"@
}

/// The record after field `i` was replaced by `value`: the line is the
/// fields joined anew, with a colon between them whatever delimiter the
/// line was split on.
pub open spec fn with_field(rec: RecordModel, i: int, value: Seq<char>) -> RecordModel {
    let fields = rec.fields.update(i, value);
    RecordModel { fields, line: joined(fields, seq![':']) }
}

/// What the email rule makes of the answer of the pattern match.
pub open spec fn email_step(found: Result<bool, PatternError>, rec: RecordModel) -> Step {
    match found {
        Ok(true) => Step::Next(rec),
        Ok(false) => Step::Stop("not_email"@),
        Err(e) => Step::Fault(e),
    }
}

/// What the hash rule makes of the answer of the catalog.
pub open spec fn hash_step(
    found: Result<Option<Seq<char>>, PatternError>,
    rec: RecordModel,
) -> Step {
    match found {
        Ok(Some(label)) => Step::Stop(label),
        Ok(None) => Step::Next(rec),
        Err(e) => Step::Fault(e),
    }
}

/// The effect of `rule` on `rec`.
pub open spec fn rule_step(
    rule: WorkType,
    catalog: Map<usize, Seq<PatternModel>>,
    rec: RecordModel,
) -> Step {
    match rule {
        WorkType::SpliterLimit(min, max) => if min <= rec.fields.len() <= max {
            Step::Next(rec)
        } else {
            Step::Stop("split_limiter"@)
        },
        WorkType::LenLimit(i, min, max) => if min <= byte_len(rec.fields[i as int]) <= max {
            Step::Next(rec)
        } else {
            Step::Stop("len_limit"@)
        },
        WorkType::ToLower(i) => Step::Next(
            with_field(rec, i as int, lowercase_of(rec.fields[i as int])),
        ),
        WorkType::IsEmail(i) => email_step(
            match_result(mail_pattern(), true, rec.fields[i as int]),
            rec,
        ),
        WorkType::IsHash(i) => hash_step(
            hash_label(catalog, rec.fields[i as int], rec.fields.len()),
            rec,
        ),
    }
}

/// What a rule returned, as a step: no label means that evaluation goes on
/// with `next`.
pub open spec fn step_of(r: Result<Option<String>, PatternError>, next: RecordModel) -> Step {
    match r {
        Ok(None) => Step::Next(next),
        Ok(Some(label)) => Step::Stop(label@),
        Err(e) => Step::Fault(e),
    }
}

/// What a call of `classify` returned, in mathematical terms.
pub open spec fn result_model(r: Result<Classified, PatternError>) -> Result<
    ClassifiedModel,
    PatternError,
> {
    match r {
        Ok(sorted) => Ok(sorted@),
        Err(e) => Err(e),
    }
}

/// The result of applying the rules from position `k` on, in order: the
/// first rejection ends the evaluation, and without one the record is good.
pub open spec fn run_from(
    rules: Seq<WorkType>,
    catalog: Map<usize, Seq<PatternModel>>,
    rec: RecordModel,
    k: int,
) -> Result<ClassifiedModel, PatternError>
    decreases rules.len() - k,
{
    if k < 0 || k >= rules.len() {
        Ok(ClassifiedModel { outcome: None, line: rec.line })
    } else {
        match rule_step(rules[k], catalog, rec) {
            Step::Next(next) => run_from(rules, catalog, next, k + 1),
            Step::Stop(label) => Ok(ClassifiedModel { outcome: Some(label), line: rec.line }),
            Step::Fault(e) => Err(e),
        }
    }
}

/// The classification of `rec` under the whole rule list.
pub open spec fn classification(
    rules: Seq<WorkType>,
    catalog: Map<usize, Seq<PatternModel>>,
    rec: RecordModel,
) -> Result<ClassifiedModel, PatternError> {
    run_from(rules, catalog, rec, 0)
}

/// Whether `value` has the shape of an email address.
pub fn is_email(value: &str) -> (r: Result<bool, PatternError>)
    ensures
        r == match_result(mail_pattern(), true, value@),
{
    pattern_matches(r"^\b[A-Za-z0-9._+-]+@[A-Za-z0-9.-]+\.[A-Z|a-z]{2,7}\b$", true, value)
}

/// Replaces field `i` of `record` by `value` and joins the line anew.
pub fn replace_field(record: &mut Record, i: usize, value: String)
    requires
        i < old(record)@.fields.len(),
    ensures
        final(record)@ == with_field(old(record)@, i as int, value@),
{
    let ghost before = texts(record.fields@);
    let ghost text = value@;
    record.fields.set(i, value);
    proof {
        reveal_strlit(":");
        assert(":"@ =~= seq![':']);
        assert(texts(record.fields@) =~= before.update(i as int, text));
    }
    record.line = join_fields(&record.fields, ":");
}

/// The email rule's verdict on the answer of the pattern match: no label
/// where the value matched, the label of the bucket where it did not.
pub fn email_verdict(found: Result<bool, PatternError>) -> (r: Result<Option<String>, PatternError>)
    ensures
        found matches Ok(true) ==> r matches Ok(None),
        found matches Ok(false) ==> r matches Ok(Some(label)) && label@ == "not_email"@,
        found matches Err(e) ==> r matches Err(f) && f == e,
{
    match found {
        Ok(true) => Ok(None),
        Ok(false) => Ok(Some(String::from_str("not_email"))),
        Err(e) => Err(e),
    }
}

/// Applies one rule to `record`. Returns the label of the bucket where the
/// rule rejects the record, which is then left as it was.
pub fn apply_rule(
    rule: WorkType,
    catalog: &HashMap<usize, Vec<HashValue>>,
    record: &mut Record,
) -> (r: Result<Option<String>, PatternError>)
    requires
        rule_field(rule) matches Some(i) ==> i < old(record)@.fields.len(),
    ensures
        rule_step(rule, catalog_model(catalog@), old(record)@) == step_of(r, final(record)@),
        !(r matches Ok(None)) ==> final(record)@ == old(record)@,
        final(record)@.fields.len() == old(record)@.fields.len(),
{
    match rule {
        WorkType::SpliterLimit(min, max) => {
            let count = record.fields.len();
            if min <= count && count <= max {
                Ok(None)
            } else {
                Ok(Some(String::from_str("split_limiter")))
            }
        },
        WorkType::LenLimit(i, min, max) => {
            let len = record.fields[i].as_str().len();
            if min <= len && len <= max {
                Ok(None)
            } else {
                Ok(Some(String::from_str("len_limit")))
            }
        },
        WorkType::ToLower(i) => {
            let lowered = to_lowercase(record.fields[i].as_str());
            replace_field(record, i, lowered);
            Ok(None)
        },
        WorkType::IsEmail(i) => {
            email_verdict(is_email(record.fields[i].as_str()))
        },
        WorkType::IsHash(i) => {
            detect_hash(catalog, record.fields[i].as_str(), record.fields.len())
        },
    }
}

/// Classifies `record`: applies the rules in order, stops at the first one
/// that rejects it, and returns the outcome with the line to write.
pub fn classify(
    rules: &Vec<WorkType>,
    catalog: &HashMap<usize, Vec<HashValue>>,
    record: Record,
) -> (r: Result<Classified, PatternError>)
    requires
        rules_valid(rules@),
        record@.fields.len() >= 1,
    ensures
        classification(rules@, catalog_model(catalog@), record@) == result_model(r),
{
    let mut current = record;
    let mut k: usize = 0;
    while k < rules.len()
        invariant
            k <= rules.len(),
            rules_valid(rules@),
            current@.fields.len() >= known_fields(rules@, k as int),
            classification(rules@, catalog_model(catalog@), record@) == run_from(
                rules@,
                catalog_model(catalog@),
                current@,
                k as int,
            ),
        decreases rules.len() - k,
    {
        assert(rule_in_range(rules@, k as int));
        match apply_rule(rules[k], catalog, &mut current) {
            Ok(None) => {},
            Ok(Some(label)) => {
                return Ok(Classified { outcome: Outcome::Bad(label), line: current.line });
            },
            Err(e) => {
                return Err(e);
            },
        }
        k += 1;
    }
    Ok(Classified { outcome: Outcome::Good, line: current.line })
}

/// Splits `line` into fields and classifies the record.
pub fn sort_line(
    rules: &Vec<WorkType>,
    catalog: &HashMap<usize, Vec<HashValue>>,
    spliters: &Vec<char>,
    line: String,
) -> (r: Result<Classified, PatternError>)
    requires
        rules_valid(rules@),
    ensures
        classification(rules@, catalog_model(catalog@), record_of(line@, spliters@))
            == result_model(r),
{
    let fields = tokenize(line.as_str(), spliters);
    classify(rules, catalog, Record { fields, line })
}

/// Decodes a raw line, malformed sequences replaced, and classifies it.
pub fn sort_raw_line(
    rules: &Vec<WorkType>,
    catalog: &HashMap<usize, Vec<HashValue>>,
    spliters: &Vec<char>,
    raw: &[u8],
) -> (r: Result<Classified, PatternError>)
    requires
        rules_valid(rules@),
    ensures
        classification(rules@, catalog_model(catalog@), record_of(utf8_lossy(raw@), spliters@))
            == result_model(r),
        valid_utf8(raw@) ==> classification(
            rules@,
            catalog_model(catalog@),
            record_of(decode_utf8(raw@), spliters@),
        ) == result_model(r),
{
    sort_line(rules, catalog, spliters, decode_lossy(raw))
}

/// The record as it stands when rule `k` is reached; `None` where an
/// earlier rule ended the evaluation.
pub open spec fn reached(
    rules: Seq<WorkType>,
    catalog: Map<usize, Seq<PatternModel>>,
    rec: RecordModel,
    k: int,
) -> Option<RecordModel>
    decreases k,
{
    if k <= 0 {
        Some(rec)
    } else {
        match reached(rules, catalog, rec, k - 1) {
            Some(at) => match rule_step(rules[k - 1], catalog, at) {
                Step::Next(next) => Some(next),
                _ => None,
            },
            None => None,
        }
    }
}

/// Where rule `k` is reached, the classification is what the rules from
/// `k` on make of the record as it then stands.
pub proof fn lemma_run_from_reached(
    rules: Seq<WorkType>,
    catalog: Map<usize, Seq<PatternModel>>,
    rec: RecordModel,
    k: int,
)
    requires
        0 <= k <= rules.len(),
        reached(rules, catalog, rec, k) is Some,
    ensures
        classification(rules, catalog, rec) == run_from(
            rules,
            catalog,
            reached(rules, catalog, rec, k)->0,
            k,
        ),
    decreases k,
{
    if k > 0 {
        lemma_run_from_reached(rules, catalog, rec, k - 1);
    }
}

/// The first rule that rejects a record decides its bucket: where every
/// rule before position `k` passes and rule `k` rejects, the outcome is
/// the label of rule `k` and the line is the record's line at that point,
/// whatever rules follow.
pub proof fn lemma_first_rejection_wins(
    rules: Seq<WorkType>,
    catalog: Map<usize, Seq<PatternModel>>,
    rec: RecordModel,
    k: int,
)
    requires
        0 <= k < rules.len(),
        reached(rules, catalog, rec, k) is Some,
        rule_step(rules[k], catalog, reached(rules, catalog, rec, k)->0) is Stop,
    ensures
        classification(rules, catalog, rec) == Ok::<ClassifiedModel, PatternError>(
            ClassifiedModel {
                outcome: Some(
                    rule_step(rules[k], catalog, reached(rules, catalog, rec, k)->0)->Stop_0,
                ),
                line: reached(rules, catalog, rec, k)->0.line,
            },
        ),
{
    lemma_run_from_reached(rules, catalog, rec, k);
}

/// Rules after the first rejection are never evaluated: two rule lists
/// that agree up to and including the rejecting rule classify the record
/// alike.
pub proof fn lemma_later_rules_ignored(
    rules: Seq<WorkType>,
    other: Seq<WorkType>,
    catalog: Map<usize, Seq<PatternModel>>,
    rec: RecordModel,
    k: int,
)
    requires
        0 <= k < rules.len(),
        k < other.len(),
        forall|j: int| 0 <= j <= k ==> rules[j] == other[j],
        reached(rules, catalog, rec, k) is Some,
        rule_step(rules[k], catalog, reached(rules, catalog, rec, k)->0) is Stop,
    ensures
        classification(rules, catalog, rec) == classification(other, catalog, rec),
{
    lemma_reached_by_prefix(rules, other, catalog, rec, k);
    lemma_first_rejection_wins(rules, catalog, rec, k);
    lemma_first_rejection_wins(other, catalog, rec, k);
}

/// What reaches rule `k` depends on the rules before `k` alone.
pub proof fn lemma_reached_by_prefix(
    rules: Seq<WorkType>,
    other: Seq<WorkType>,
    catalog: Map<usize, Seq<PatternModel>>,
    rec: RecordModel,
    k: int,
)
    requires
        0 <= k <= rules.len(),
        k <= other.len(),
        forall|j: int| 0 <= j < k ==> rules[j] == other[j],
    ensures
        reached(rules, catalog, rec, k) == reached(other, catalog, rec, k),
    decreases k,
{
    if k > 0 {
        lemma_reached_by_prefix(rules, other, catalog, rec, k - 1);
    }
}

/// Classifying the same record twice under the same rules and the same
/// catalog gives the same outcome and the same line.
pub proof fn lemma_replay(
    rules: Seq<WorkType>,
    catalog: Map<usize, Seq<PatternModel>>,
    rec: RecordModel,
    first: Result<Classified, PatternError>,
    second: Result<Classified, PatternError>,
)
    requires
        classification(rules, catalog, rec) == result_model(first),
        classification(rules, catalog, rec) == result_model(second),
    ensures
        result_model(first) == result_model(second),
{
}

} // verus!
