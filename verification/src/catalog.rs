//! The catalog of hash patterns, indexed by the byte length of the values
//! that each pattern can match.

use crate::hash_regex::{match_result, pattern_matches, HashType, PatternError};
use vstd::utf8::encode_utf8;
use std::collections::HashMap;
use vstd::prelude::*;
use vstd::string::StringExecFns;

verus! {

broadcast use vstd::std_specs::hash::group_hash_axioms;

/// What a catalog entry says, in mathematical terms.
pub ghost struct PatternModel {
    pub name: HashType,
    pub regex: Seq<char>,
    pub ignore_case: bool,
    pub hc: Seq<char>,
}

/// One pattern of the catalog: the family it stands for, the source of its
/// regular expression with the case flag, and the label of its bucket.
#[derive(Debug)]
pub struct HashValue {
    pub name: HashType,
    pub regex: String,
    pub ignore_case: bool,
    pub hc: String,
}

/// A catalog pattern that carries the byte length of the values it matches.
#[derive(Debug)]
pub struct HashValue2 {
    pub name: HashType,
    pub regex: String,
    pub ignore_case: bool,
    pub hc: String,
    pub len: u8,
}

impl View for HashValue {
    type V = PatternModel;

    open spec fn view(&self) -> PatternModel {
        PatternModel {
            name: self.name,
            regex: self.regex@,
            ignore_case: self.ignore_case,
            hc: self.hc@,
        }
    }
}

impl View for HashValue2 {
    type V = PatternModel;

    open spec fn view(&self) -> PatternModel {
        PatternModel {
            name: self.name,
            regex: self.regex@,
            ignore_case: self.ignore_case,
            hc: self.hc@,
        }
    }
}

/// The models of a list of patterns, in order.
pub open spec fn models(patterns: Seq<HashValue>) -> Seq<PatternModel> {
    patterns.map_values(|h: HashValue| h@)
}

/// The model of a catalog: for each length that has an entry, the models of
/// its patterns in declared order.
pub open spec fn catalog_model(catalog: Map<usize, Vec<HashValue>>) -> Map<
    usize,
    Seq<PatternModel>,
> {
    Map::new(|len: usize| catalog.contains_key(len), |len: usize| models(catalog[len]@))
}

/// The pattern that detects the hash family `name`.
pub open spec fn pattern_of(name: HashType) -> PatternModel {
    match name {
        HashType::Half_Md5 => PatternModel {
            name: name,
            regex: r"^[a-f0-9]{16}$"@,
            ignore_case: true,
            hc: "[HALF_MD5]_[5100]"@,
        },
        HashType::MD5 => PatternModel {
            name: name,
            regex: r"^[a-f0-9]{32}$"@,
            ignore_case: true,
            hc: "[MD5]_[0]"@,
        },
        HashType::SHA1 => PatternModel {
            name: name,
            regex: r"^[a-f0-9]{40}$"@,
            ignore_case: true,
            hc: "[SHA1]_[100]"@,
        },
        HashType::SHA224 => PatternModel {
            name: name,
            regex: r"^[a-f0-9]{56}$"@,
            ignore_case: true,
            hc: "[SHA224]_[1300]"@,
        },
        HashType::SHA256 => PatternModel {
            name: name,
            regex: r"^[a-f0-9]{64}$"@,
            ignore_case: true,
            hc: "[SHA256]_[1400]"@,
        },
        HashType::SHA384 => PatternModel {
            name: name,
            regex: r"^[a-f0-9]{96}$"@,
            ignore_case: true,
            hc: "[SHA384]_[10800]"@,
        },
        HashType::SHA512 => PatternModel {
            name: name,
            regex: r"^[a-f0-9]{128}$"@,
            ignore_case: true,
            hc: "[SHA512]_[1700]"@,
        },
        HashType::Half_Md5_Base64 => PatternModel {
            name: name,
            regex: r"^[-A-Za-z0-9+/]{11}=$"@,
            ignore_case: true,
            hc: "[HALF_MD5_BASE64]_[5100_base64]"@,
        },
        HashType::Md5_Base64 => PatternModel {
            name: name,
            regex: r"^[-A-Za-z0-9+/]{22}==$"@,
            ignore_case: true,
            hc: "[MD5_BASE64]_[0_base64]"@,
        },
        HashType::Sha1_Base64 => PatternModel {
            name: name,
            regex: r"^[-A-Za-z0-9+/]{27}=$"@,
            ignore_case: true,
            hc: "[SHA1_BASE64]_[100_base64]"@,
        },
        HashType::Sha224_Base64 => PatternModel {
            name: name,
            regex: r"^[-A-Za-z0-9+/]{38}==$"@,
            ignore_case: true,
            hc: "[SHA224_BASE64]_[1300_base64]"@,
        },
        HashType::Sha256_Base64 => PatternModel {
            name: name,
            regex: r"^[-A-Za-z0-9+/]{43}=$"@,
            ignore_case: true,
            hc: "[SHA256_BASE64]_[1400_base64]"@,
        },
        HashType::Sha384_Base64 => PatternModel {
            name: name,
            regex: r"^[-A-Za-z0-9+/]{64}$"@,
            ignore_case: true,
            hc: "[SHA384_BASE64]_[10800_base64]"@,
        },
        HashType::Sha512_Base64 => PatternModel {
            name: name,
            regex: r"^[-A-Za-z0-9+/]{86}==$"@,
            ignore_case: true,
            hc: "[SHA512_BASE64]_[1700_base64]"@,
        },
        HashType::Django_sha1 => PatternModel {
            name: name,
            regex: r"^sha1\$[a-z0-9]+\$[a-f0-9]{40}$"@,
            ignore_case: true,
            hc: "[DJANGO_SHA1]_[124]"@,
        },
        HashType::Django_sha256 => PatternModel {
            name: name,
            regex: r"^pbkdf2_sha256\$[0-9]+\$[a-z0-9/.]+\$[a-z0-9/.]{43}=$"@,
            ignore_case: true,
            hc: "[DJANGO_SHA256]_[10000]"@,
        },
        HashType::Authme => PatternModel {
            name: name,
            regex: r"^\$sha\$[a-z0-9]{1,16}\$([a-f0-9]{32}|[a-f0-9]{40}|[a-f0-9]{64}|[a-f0-9]{128}|[a-f0-9]{140})$"@,
            ignore_case: true,
            hc: "[AUTHME]_[20711]"@,
        },
        HashType::Md5Rus => PatternModel {
            name: name,
            regex: r"[A-Za-z0-9._+-\\\(\)^|*&%$#!~{}]+[a-f0-9]{32}$"@,
            ignore_case: true,
            hc: "[MD5_RUs]_[20]"@,
        },
        HashType::DRUPAL7 => PatternModel {
            name: name,
            regex: r"^\$S\$[a-z0-9\/.]{52}$"@,
            ignore_case: true,
            hc: "[DRUPAL7]_[7900]"@,
        },
        HashType::SHA512CRYPT => PatternModel {
            name: name,
            regex: r"^\$6\$(rounds=[0-9]+\$)?[a-z0-9\/.]{0,16}\$[a-z0-9\/.]{86}$"@,
            ignore_case: true,
            hc: "[SHA512CRYPT]_[1800]"@,
        },
        HashType::Blake2b_512 => PatternModel {
            name: name,
            regex: r"\$BLAKE2\$[a-f0-9]{128}"@,
            ignore_case: false,
            hc: "[BLAKE2b_512]_[600]"@,
        },
        HashType::MD5CRYPT => PatternModel {
            name: name,
            regex: r"^\$1\$[a-z0-9\/.]{0,8}\$[a-z0-9\/.]{22}(:.*)?$"@,
            ignore_case: true,
            hc: "[MD5CRYPT]_[500]"@,
        },
        HashType::PHPASS => PatternModel {
            name: name,
            regex: r"^\$[PH]\$[a-z0-9\\/.]{31}$"@,
            ignore_case: true,
            hc: "[PHPASS]_[400]"@,
        },
        HashType::Bcrypt => PatternModel {
            name: name,
            regex: r"^(\$2[axy]|\$2)\$[0-9]{2}\$[a-z0-9\/.]{53}$"@,
            ignore_case: true,
            hc: "[BCRYPT]_[3200]"@,
        },
        HashType::MYSQL5 => PatternModel {
            name: name,
            regex: r"^\*[A-F0-9]{40}$"@,
            ignore_case: true,
            hc: "[MYSQL5]_[300]"@,
        },
    }
}

/// The built-in catalog: each byte length with the families that produce
/// values of that length, in the order in which they are tried.
pub open spec fn default_catalog() -> Map<usize, Seq<PatternModel>> {
    Map::<usize, Seq<PatternModel>>::empty()
        .insert(12, seq![pattern_of(HashType::Half_Md5_Base64)])
        .insert(16, seq![pattern_of(HashType::Half_Md5)])
        .insert(24, seq![pattern_of(HashType::Md5_Base64)])
        .insert(28, seq![pattern_of(HashType::Sha1_Base64)])
        .insert(32, seq![pattern_of(HashType::MD5)])
        .insert(34, seq![pattern_of(HashType::PHPASS), pattern_of(HashType::MD5CRYPT)])
        .insert(40, seq![pattern_of(HashType::SHA1), pattern_of(HashType::Md5Rus), pattern_of(HashType::Sha224_Base64)])
        .insert(41, seq![pattern_of(HashType::MYSQL5)])
        .insert(44, seq![pattern_of(HashType::Sha256_Base64)])
        .insert(51, seq![pattern_of(HashType::Django_sha1)])
        .insert(55, seq![pattern_of(HashType::DRUPAL7)])
        .insert(56, seq![pattern_of(HashType::SHA224)])
        .insert(60, seq![pattern_of(HashType::Bcrypt)])
        .insert(64, seq![pattern_of(HashType::SHA256), pattern_of(HashType::Sha384_Base64)])
        .insert(77, seq![pattern_of(HashType::Django_sha256)])
        .insert(86, seq![pattern_of(HashType::Authme)])
        .insert(88, seq![pattern_of(HashType::Sha512_Base64)])
        .insert(96, seq![pattern_of(HashType::SHA384)])
        .insert(98, seq![pattern_of(HashType::SHA512CRYPT)])
        .insert(128, seq![pattern_of(HashType::SHA512)])
        .insert(136, seq![pattern_of(HashType::Blake2b_512)])
}

impl HashValue {
    /// The catalog's pattern for the hash family `name`.
    pub fn of(name: HashType) -> (h: HashValue)
        ensures
            h@ == pattern_of(name),
    {
        match name {
            HashType::Half_Md5 => HashValue {
                name,
                regex: String::from_str(r"^[a-f0-9]{16}$"),
                ignore_case: true,
                hc: String::from_str("[HALF_MD5]_[5100]"),
            },
            HashType::MD5 => HashValue {
                name,
                regex: String::from_str(r"^[a-f0-9]{32}$"),
                ignore_case: true,
                hc: String::from_str("[MD5]_[0]"),
            },
            HashType::SHA1 => HashValue {
                name,
                regex: String::from_str(r"^[a-f0-9]{40}$"),
                ignore_case: true,
                hc: String::from_str("[SHA1]_[100]"),
            },
            HashType::SHA224 => HashValue {
                name,
                regex: String::from_str(r"^[a-f0-9]{56}$"),
                ignore_case: true,
                hc: String::from_str("[SHA224]_[1300]"),
            },
            HashType::SHA256 => HashValue {
                name,
                regex: String::from_str(r"^[a-f0-9]{64}$"),
                ignore_case: true,
                hc: String::from_str("[SHA256]_[1400]"),
            },
            HashType::SHA384 => HashValue {
                name,
                regex: String::from_str(r"^[a-f0-9]{96}$"),
                ignore_case: true,
                hc: String::from_str("[SHA384]_[10800]"),
            },
            HashType::SHA512 => HashValue {
                name,
                regex: String::from_str(r"^[a-f0-9]{128}$"),
                ignore_case: true,
                hc: String::from_str("[SHA512]_[1700]"),
            },
            HashType::Half_Md5_Base64 => HashValue {
                name,
                regex: String::from_str(r"^[-A-Za-z0-9+/]{11}=$"),
                ignore_case: true,
                hc: String::from_str("[HALF_MD5_BASE64]_[5100_base64]"),
            },
            HashType::Md5_Base64 => HashValue {
                name,
                regex: String::from_str(r"^[-A-Za-z0-9+/]{22}==$"),
                ignore_case: true,
                hc: String::from_str("[MD5_BASE64]_[0_base64]"),
            },
            HashType::Sha1_Base64 => HashValue {
                name,
                regex: String::from_str(r"^[-A-Za-z0-9+/]{27}=$"),
                ignore_case: true,
                hc: String::from_str("[SHA1_BASE64]_[100_base64]"),
            },
            HashType::Sha224_Base64 => HashValue {
                name,
                regex: String::from_str(r"^[-A-Za-z0-9+/]{38}==$"),
                ignore_case: true,
                hc: String::from_str("[SHA224_BASE64]_[1300_base64]"),
            },
            HashType::Sha256_Base64 => HashValue {
                name,
                regex: String::from_str(r"^[-A-Za-z0-9+/]{43}=$"),
                ignore_case: true,
                hc: String::from_str("[SHA256_BASE64]_[1400_base64]"),
            },
            HashType::Sha384_Base64 => HashValue {
                name,
                regex: String::from_str(r"^[-A-Za-z0-9+/]{64}$"),
                ignore_case: true,
                hc: String::from_str("[SHA384_BASE64]_[10800_base64]"),
            },
            HashType::Sha512_Base64 => HashValue {
                name,
                regex: String::from_str(r"^[-A-Za-z0-9+/]{86}==$"),
                ignore_case: true,
                hc: String::from_str("[SHA512_BASE64]_[1700_base64]"),
            },
            HashType::Django_sha1 => HashValue {
                name,
                regex: String::from_str(r"^sha1\$[a-z0-9]+\$[a-f0-9]{40}$"),
                ignore_case: true,
                hc: String::from_str("[DJANGO_SHA1]_[124]"),
            },
            HashType::Django_sha256 => HashValue {
                name,
                regex: String::from_str(r"^pbkdf2_sha256\$[0-9]+\$[a-z0-9/.]+\$[a-z0-9/.]{43}=$"),
                ignore_case: true,
                hc: String::from_str("[DJANGO_SHA256]_[10000]"),
            },
            HashType::Authme => HashValue {
                name,
                regex: String::from_str(r"^\$sha\$[a-z0-9]{1,16}\$([a-f0-9]{32}|[a-f0-9]{40}|[a-f0-9]{64}|[a-f0-9]{128}|[a-f0-9]{140})$"),
                ignore_case: true,
                hc: String::from_str("[AUTHME]_[20711]"),
            },
            HashType::Md5Rus => HashValue {
                name,
                regex: String::from_str(r"[A-Za-z0-9._+-\\\(\)^|*&%$#!~{}]+[a-f0-9]{32}$"),
                ignore_case: true,
                hc: String::from_str("[MD5_RUs]_[20]"),
            },
            HashType::DRUPAL7 => HashValue {
                name,
                regex: String::from_str(r"^\$S\$[a-z0-9\/.]{52}$"),
                ignore_case: true,
                hc: String::from_str("[DRUPAL7]_[7900]"),
            },
            HashType::SHA512CRYPT => HashValue {
                name,
                regex: String::from_str(r"^\$6\$(rounds=[0-9]+\$)?[a-z0-9\/.]{0,16}\$[a-z0-9\/.]{86}$"),
                ignore_case: true,
                hc: String::from_str("[SHA512CRYPT]_[1800]"),
            },
            HashType::Blake2b_512 => HashValue {
                name,
                regex: String::from_str(r"\$BLAKE2\$[a-f0-9]{128}"),
                ignore_case: false,
                hc: String::from_str("[BLAKE2b_512]_[600]"),
            },
            HashType::MD5CRYPT => HashValue {
                name,
                regex: String::from_str(r"^\$1\$[a-z0-9\/.]{0,8}\$[a-z0-9\/.]{22}(:.*)?$"),
                ignore_case: true,
                hc: String::from_str("[MD5CRYPT]_[500]"),
            },
            HashType::PHPASS => HashValue {
                name,
                regex: String::from_str(r"^\$[PH]\$[a-z0-9\\/.]{31}$"),
                ignore_case: true,
                hc: String::from_str("[PHPASS]_[400]"),
            },
            HashType::Bcrypt => HashValue {
                name,
                regex: String::from_str(r"^(\$2[axy]|\$2)\$[0-9]{2}\$[a-z0-9\/.]{53}$"),
                ignore_case: true,
                hc: String::from_str("[BCRYPT]_[3200]"),
            },
            HashType::MYSQL5 => HashValue {
                name,
                regex: String::from_str(r"^\*[A-F0-9]{40}$"),
                ignore_case: true,
                hc: String::from_str("[MYSQL5]_[300]"),
            },
        }
    }
}

/// A catalog entry of one pattern.
fn entry1(a: HashType) -> (v: Vec<HashValue>)
    ensures
        models(v@) == seq![pattern_of(a)],
{
    let v = vec![HashValue::of(a)];
    assert(models(v@) =~= seq![pattern_of(a)]);
    v
}

/// A catalog entry of two patterns, tried in this order.
fn entry2(a: HashType, b: HashType) -> (v: Vec<HashValue>)
    ensures
        models(v@) == seq![pattern_of(a), pattern_of(b)],
{
    let v = vec![HashValue::of(a), HashValue::of(b)];
    assert(models(v@) =~= seq![pattern_of(a), pattern_of(b)]);
    v
}

/// A catalog entry of three patterns, tried in this order.
fn entry3(a: HashType, b: HashType, c: HashType) -> (v: Vec<HashValue>)
    ensures
        models(v@) == seq![pattern_of(a), pattern_of(b), pattern_of(c)],
{
    let v = vec![HashValue::of(a), HashValue::of(b), HashValue::of(c)];
    assert(models(v@) =~= seq![pattern_of(a), pattern_of(b), pattern_of(c)]);
    v
}

/// Builds the built-in catalog.
pub fn hash_types() -> (catalog: HashMap<usize, Vec<HashValue>>)
    ensures
        catalog_model(catalog@) == default_catalog(),
{
    let mut hash_regexes: HashMap<usize, Vec<HashValue>> = HashMap::new();
    hash_regexes.insert(12, entry1(HashType::Half_Md5_Base64));
    hash_regexes.insert(16, entry1(HashType::Half_Md5));
    hash_regexes.insert(24, entry1(HashType::Md5_Base64));
    hash_regexes.insert(28, entry1(HashType::Sha1_Base64));
    hash_regexes.insert(32, entry1(HashType::MD5));
    hash_regexes.insert(34, entry2(HashType::PHPASS, HashType::MD5CRYPT));
    hash_regexes.insert(40, entry3(HashType::SHA1, HashType::Md5Rus, HashType::Sha224_Base64));
    hash_regexes.insert(41, entry1(HashType::MYSQL5));
    hash_regexes.insert(44, entry1(HashType::Sha256_Base64));
    hash_regexes.insert(51, entry1(HashType::Django_sha1));
    hash_regexes.insert(55, entry1(HashType::DRUPAL7));
    hash_regexes.insert(56, entry1(HashType::SHA224));
    hash_regexes.insert(60, entry1(HashType::Bcrypt));
    hash_regexes.insert(64, entry2(HashType::SHA256, HashType::Sha384_Base64));
    hash_regexes.insert(77, entry1(HashType::Django_sha256));
    hash_regexes.insert(86, entry1(HashType::Authme));
    hash_regexes.insert(88, entry1(HashType::Sha512_Base64));
    hash_regexes.insert(96, entry1(HashType::SHA384));
    hash_regexes.insert(98, entry1(HashType::SHA512CRYPT));
    hash_regexes.insert(128, entry1(HashType::SHA512));
    hash_regexes.insert(136, entry1(HashType::Blake2b_512));
    assert(catalog_model(hash_regexes@) =~= default_catalog());
    hash_regexes
}

/// The length in bytes of `text` in UTF-8, as a machine word.
pub open spec fn byte_len(text: Seq<char>) -> usize {
    encode_utf8(text).len() as usize
}

/// The suffix that marks a hash found in a record of more than two fields.
pub open spec fn salt_marker() -> Seq<char> {
    "_[SALT]"@
}

/// The position of the first pattern at or after `from` that matches
/// `text`, trying the patterns in order; an error where a pattern tried
/// before any match does not compile.
pub open spec fn first_match(patterns: Seq<PatternModel>, text: Seq<char>, from: int) -> Result<
    Option<int>,
    PatternError,
>
    decreases patterns.len() - from,
{
    if from < 0 || from >= patterns.len() {
        Ok(None)
    } else {
        match match_result(patterns[from].regex, patterns[from].ignore_case, text) {
            Ok(true) => Ok(Some(from)),
            Ok(false) => first_match(patterns, text, from + 1),
            Err(e) => Err(e),
        }
    }
}

/// The label of a matched pattern, with the salt marker where the record
/// has more than two fields.
pub open spec fn salted(label: Seq<char>, field_count: nat) -> Seq<char> {
    if field_count > 2 {
        label + salt_marker()
    } else {
        label
    }
}

/// The bucket label that `value` earns as a hash: that of the first
/// matching pattern among those listed for its byte length; none where the
/// length has no entry or no pattern of the entry matches.
pub open spec fn hash_label(
    catalog: Map<usize, Seq<PatternModel>>,
    value: Seq<char>,
    field_count: nat,
) -> Result<Option<Seq<char>>, PatternError> {
    let len = byte_len(value);
    if !catalog.contains_key(len) {
        Ok(None)
    } else {
        match first_match(catalog[len], value, 0) {
            Ok(Some(k)) => Ok(Some(salted(catalog[len][k].hc, field_count))),
            Ok(None) => Ok(None),
            Err(e) => Err(e),
        }
    }
}

/// The bucket label of a matched pattern whose own label is `hc`, in a
/// record of `field_count` fields.
pub fn salted_label(hc: &str, field_count: usize) -> (label: String)
    ensures
        label@ == salted(hc@, field_count as nat),
{
    let mut label = String::from_str(hc);
    if field_count > 2 {
        label.append("_[SALT]");
    }
    label
}

/// Tries `patterns` on `value` in order and returns the position of the
/// first that matches.
pub fn find_pattern(patterns: &Vec<HashValue>, value: &str) -> (r: Result<
    Option<usize>,
    PatternError,
>)
    ensures
        first_match(models(patterns@), value@, 0) == match r {
            Ok(Some(k)) => Ok::<Option<int>, PatternError>(Some(k as int)),
            Ok(None) => Ok(None),
            Err(e) => Err(e),
        },
        r matches Ok(Some(k)) ==> k < patterns@.len(),
{
    let mut k: usize = 0;
    while k < patterns.len()
        invariant
            k <= patterns.len(),
            first_match(models(patterns@), value@, 0) == first_match(
                models(patterns@),
                value@,
                k as int,
            ),
        decreases patterns.len() - k,
    {
        let pattern = &patterns[k];
        assert(models(patterns@)[k as int] == pattern@);
        match pattern_matches(pattern.regex.as_str(), pattern.ignore_case, value) {
            Ok(true) => {
                return Ok(Some(k));
            },
            Ok(false) => {},
            Err(e) => {
                return Err(e);
            },
        }
        k += 1;
    }
    Ok(None)
}

/// Looks `value` up in the catalog by its byte length and returns the
/// bucket label of the first pattern that matches it, if any.
pub fn detect_hash(
    catalog: &HashMap<usize, Vec<HashValue>>,
    value: &str,
    field_count: usize,
) -> (r: Result<Option<String>, PatternError>)
    ensures
        hash_label(catalog_model(catalog@), value@, field_count as nat) == match r {
            Ok(Some(label)) => Ok::<Option<Seq<char>>, PatternError>(Some(label@)),
            Ok(None) => Ok(None),
            Err(e) => Err(e),
        },
{
    let len: usize = value.len();
    match catalog.get(&len) {
        Some(patterns) => {
            match find_pattern(patterns, value) {
                Ok(Some(k)) => {
                    assert(models(patterns@)[k as int] == patterns@[k as int]@);
                    Ok(Some(salted_label(patterns[k].hc.as_str(), field_count)))
                },
                Ok(None) => Ok(None),
                Err(e) => Err(e),
            }
        },
        None => Ok(None),
    }
}

} // verus!
