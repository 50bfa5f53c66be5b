//! The hash families, the length-indexed catalog of their patterns, and the
//! regular-expression matching that the catalog rests on.

use vstd::prelude::*;
use vstd::string::StringExecFns;

verus! {

/// A `Result` error of the regular-expression engine.
#[verifier::external_type_specification]
#[verifier::external_body]
pub struct ExRegexError(lazy_regex::regex::Error);

/// Whether the regular-expression engine accepts `pattern` as a pattern,
/// compiled case-insensitively where `ignore_case` is set.
pub uninterp spec fn regex_compiles(pattern: Seq<char>, ignore_case: bool) -> bool;

/// Whether the compiled `pattern` has a match anywhere in `text`.
pub uninterp spec fn regex_is_match(pattern: Seq<char>, ignore_case: bool, text: Seq<char>) -> bool;

/// The hash families that the catalog knows.
#[allow(non_camel_case_types)]
#[derive(Clone, Copy, Debug, PartialEq, Eq, Structural)]
pub enum HashType {
    Half_Md5,
    MD5,
    SHA1,
    SHA224,
    SHA256,
    SHA384,
    SHA512,
    Half_Md5_Base64,
    Md5_Base64,
    Sha1_Base64,
    Sha224_Base64,
    Sha256_Base64,
    Sha384_Base64,
    Sha512_Base64,
    Django_sha1,
    Django_sha256,
    Authme,
    Md5Rus,
    DRUPAL7,
    SHA512CRYPT,
    Blake2b_512,
    MD5CRYPT,
    PHPASS,
    Bcrypt,
    MYSQL5,
}

/// Every hash family once, in declaration order.
pub open spec fn all_hash_types() -> Seq<HashType> {
    seq![
        HashType::Half_Md5,
        HashType::MD5,
        HashType::SHA1,
        HashType::SHA224,
        HashType::SHA256,
        HashType::SHA384,
        HashType::SHA512,
        HashType::Half_Md5_Base64,
        HashType::Md5_Base64,
        HashType::Sha1_Base64,
        HashType::Sha224_Base64,
        HashType::Sha256_Base64,
        HashType::Sha384_Base64,
        HashType::Sha512_Base64,
        HashType::Django_sha1,
        HashType::Django_sha256,
        HashType::Authme,
        HashType::Md5Rus,
        HashType::DRUPAL7,
        HashType::SHA512CRYPT,
        HashType::Blake2b_512,
        HashType::MD5CRYPT,
        HashType::PHPASS,
        HashType::Bcrypt,
        HashType::MYSQL5,
    ]
}

/// The name of a hash family as text: the name of its variant.
pub open spec fn family_name(name: HashType) -> Seq<char> {
    match name {
        HashType::Half_Md5 => "Half_Md5"@,
        HashType::MD5 => "MD5"@,
        HashType::SHA1 => "SHA1"@,
        HashType::SHA224 => "SHA224"@,
        HashType::SHA256 => "SHA256"@,
        HashType::SHA384 => "SHA384"@,
        HashType::SHA512 => "SHA512"@,
        HashType::Half_Md5_Base64 => "Half_Md5_Base64"@,
        HashType::Md5_Base64 => "Md5_Base64"@,
        HashType::Sha1_Base64 => "Sha1_Base64"@,
        HashType::Sha224_Base64 => "Sha224_Base64"@,
        HashType::Sha256_Base64 => "Sha256_Base64"@,
        HashType::Sha384_Base64 => "Sha384_Base64"@,
        HashType::Sha512_Base64 => "Sha512_Base64"@,
        HashType::Django_sha1 => "Django_sha1"@,
        HashType::Django_sha256 => "Django_sha256"@,
        HashType::Authme => "Authme"@,
        HashType::Md5Rus => "Md5Rus"@,
        HashType::DRUPAL7 => "DRUPAL7"@,
        HashType::SHA512CRYPT => "SHA512CRYPT"@,
        HashType::Blake2b_512 => "Blake2b_512"@,
        HashType::MD5CRYPT => "MD5CRYPT"@,
        HashType::PHPASS => "PHPASS"@,
        HashType::Bcrypt => "Bcrypt"@,
        HashType::MYSQL5 => "MYSQL5"@,
    }
}

impl HashType {
    /// All hash families, in declaration order.
    pub fn vec() -> (v: Vec<HashType>)
        ensures
            v@ == all_hash_types(),
    {
        let v = vec![
            HashType::Half_Md5,
            HashType::MD5,
            HashType::SHA1,
            HashType::SHA224,
            HashType::SHA256,
            HashType::SHA384,
            HashType::SHA512,
            HashType::Half_Md5_Base64,
            HashType::Md5_Base64,
            HashType::Sha1_Base64,
            HashType::Sha224_Base64,
            HashType::Sha256_Base64,
            HashType::Sha384_Base64,
            HashType::Sha512_Base64,
            HashType::Django_sha1,
            HashType::Django_sha256,
            HashType::Authme,
            HashType::Md5Rus,
            HashType::DRUPAL7,
            HashType::SHA512CRYPT,
            HashType::Blake2b_512,
            HashType::MD5CRYPT,
            HashType::PHPASS,
            HashType::Bcrypt,
            HashType::MYSQL5,
        ];
        assert(v@ =~= all_hash_types());
        v
    }

    /// The name of this hash family as text.
    pub fn name(&self) -> (text: String)
        ensures
            text@ == family_name(*self),
    {
        match self {
            HashType::Half_Md5 => String::from_str("Half_Md5"),
            HashType::MD5 => String::from_str("MD5"),
            HashType::SHA1 => String::from_str("SHA1"),
            HashType::SHA224 => String::from_str("SHA224"),
            HashType::SHA256 => String::from_str("SHA256"),
            HashType::SHA384 => String::from_str("SHA384"),
            HashType::SHA512 => String::from_str("SHA512"),
            HashType::Half_Md5_Base64 => String::from_str("Half_Md5_Base64"),
            HashType::Md5_Base64 => String::from_str("Md5_Base64"),
            HashType::Sha1_Base64 => String::from_str("Sha1_Base64"),
            HashType::Sha224_Base64 => String::from_str("Sha224_Base64"),
            HashType::Sha256_Base64 => String::from_str("Sha256_Base64"),
            HashType::Sha384_Base64 => String::from_str("Sha384_Base64"),
            HashType::Sha512_Base64 => String::from_str("Sha512_Base64"),
            HashType::Django_sha1 => String::from_str("Django_sha1"),
            HashType::Django_sha256 => String::from_str("Django_sha256"),
            HashType::Authme => String::from_str("Authme"),
            HashType::Md5Rus => String::from_str("Md5Rus"),
            HashType::DRUPAL7 => String::from_str("DRUPAL7"),
            HashType::SHA512CRYPT => String::from_str("SHA512CRYPT"),
            HashType::Blake2b_512 => String::from_str("Blake2b_512"),
            HashType::MD5CRYPT => String::from_str("MD5CRYPT"),
            HashType::PHPASS => String::from_str("PHPASS"),
            HashType::Bcrypt => String::from_str("Bcrypt"),
            HashType::MYSQL5 => String::from_str("MYSQL5"),
        }
    }
}

/// A pattern could not be compiled by the regular-expression engine.
#[derive(Clone, Copy, Debug, PartialEq, Eq, Structural)]
pub enum PatternError {
    Invalid,
}

/// Compiles `pattern` with `lazy_regex::RegexBuilder` (`new`,
/// `case_insensitive`, `build`) and asks `Regex::is_match` for `text`.
/// Trusted: the build fails exactly on the patterns the engine refuses, and
/// the answer depends on pattern, flag and text alone.
#[verifier::external_body]
fn regex_test(pattern: &str, ignore_case: bool, text: &str) -> (r: Result<
    bool,
    lazy_regex::regex::Error,
>)
    ensures
        r is Ok <==> regex_compiles(pattern@, ignore_case),
        r is Ok ==> r->Ok_0 == regex_is_match(pattern@, ignore_case, text@),
{
    let built = lazy_regex::RegexBuilder::new(pattern).case_insensitive(ignore_case).build();
    match built {
        Ok(re) => Ok(re.is_match(text)),
        Err(e) => Err(e),
    }
}

/// What matching `text` against `pattern` yields: the engine's answer, or
/// an error where the pattern does not compile.
pub open spec fn match_result(pattern: Seq<char>, ignore_case: bool, text: Seq<char>) -> Result<
    bool,
    PatternError,
> {
    if regex_compiles(pattern, ignore_case) {
        Ok(regex_is_match(pattern, ignore_case, text))
    } else {
        Err(PatternError::Invalid)
    }
}

/// Matches `text` against `pattern`.
pub fn pattern_matches(pattern: &str, ignore_case: bool, text: &str) -> (r: Result<
    bool,
    PatternError,
>)
    ensures
        r == match_result(pattern@, ignore_case, text@),
{
    match regex_test(pattern, ignore_case, text) {
        Ok(found) => Ok(found),
        Err(_) => Err(PatternError::Invalid),
    }
}

} // verus!
