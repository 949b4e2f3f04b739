use vstd::prelude::*;

use crate::report::CcError;
use crate::report::Diagnostic;
use crate::report::is_missing_int;
use crate::report::is_missing_str;
use crate::report::is_wrong_type_int;
use crate::report::is_wrong_type_str;
use crate::report::pushed_one;

verus! {

#[verifier::external_type_specification]
#[verifier::external_body]
pub struct ExTomlValue(toml::Value);

#[verifier::external_type_specification]
#[verifier::external_body]
pub struct ExTomlDeError(toml::de::Error);

/// The entry of `v` under the string key `key`: what `toml::Value::get`
/// returns. `None` when `v` is not a table or the key is absent.
pub uninterp spec fn toml_table_get(v: toml::Value, key: Seq<char>) -> Option<toml::Value>;

/// The string content of `v`: what `toml::Value::as_str` returns.
pub uninterp spec fn toml_as_str(v: toml::Value) -> Option<Seq<char>>;

/// The integer content of `v`: what `toml::Value::as_integer` returns.
pub uninterp spec fn toml_as_int(v: toml::Value) -> Option<i64>;

/// Whether `s` parses as a TOML document: whether `toml::from_str` succeeds
/// on it. The parser is deterministic, so this depends on the text alone.
pub uninterp spec fn toml_source_ok(s: Seq<char>) -> bool;

/// The document that `toml::from_str` yields for `s` when it parses: the
/// parser is deterministic, so the document is a function of the text alone.
/// Meaningful only where `toml_source_ok(s)` holds.
pub uninterp spec fn toml_doc(s: Seq<char>) -> toml::Value;

/// Relies on `toml::Value::get` with a string index: a pure lookup in the
/// value's table, `None` when the value is no table or the key is absent.
#[verifier::external_body]
fn value_get<'a>(v: &'a toml::Value, key: &str) -> (r: Option<&'a toml::Value>)
    ensures
        r matches Some(e) ==> toml_table_get(*v, key@) == Some(*e),
        r is None ==> toml_table_get(*v, key@) is None,
{
    v.get(key)
}

/// Relies on `toml::Value::as_str`: the string content of the value, `None`
/// for every other kind of value.
#[verifier::external_body]
fn value_as_str<'a>(v: &'a toml::Value) -> (r: Option<&'a str>)
    ensures
        r matches Some(s) ==> toml_as_str(*v) == Some(s@),
        r is None ==> toml_as_str(*v) is None,
{
    v.as_str()
}

/// Relies on `toml::Value::as_integer`: the integer content of the value,
/// `None` for every other kind of value.
#[verifier::external_body]
fn value_as_int(v: &toml::Value) -> (r: Option<i64>)
    ensures
        r matches Some(i) ==> toml_as_int(*v) == Some(i),
        r is None ==> toml_as_int(*v) is None,
{
    v.as_integer()
}

/// Relies on `toml::from_str`: parses the text as a TOML document. The
/// parser is deterministic, so both success and the resulting document are
/// functions of the text alone.
#[verifier::external_body]
fn toml_parse(s: &str) -> (r: Result<toml::Value, toml::de::Error>)
    ensures
        r is Ok <==> toml_source_ok(s@),
        r matches Ok(v) ==> v == toml_doc(s@),
{
    toml::from_str::<toml::Value>(s)
}

/// The entry of the document at the two-level path `section.key`, if any.
pub open spec fn entry_at(doc: toml::Value, section: Seq<char>, key: Seq<char>) -> Option<toml::Value> {
    match toml_table_get(doc, section) {
        Some(t) => toml_table_get(t, key),
        None => None,
    }
}

/// The string at `section.key`, if the path exists and holds a string.
pub open spec fn str_at(doc: toml::Value, section: Seq<char>, key: Seq<char>) -> Option<Seq<char>> {
    match entry_at(doc, section, key) {
        Some(v) => toml_as_str(v),
        None => None,
    }
}

/// The integer at `section.key`, if the path exists and holds an integer.
pub open spec fn int_at(doc: toml::Value, section: Seq<char>, key: Seq<char>) -> Option<i64> {
    match entry_at(doc, section, key) {
        Some(v) => toml_as_int(v),
        None => None,
    }
}

/// The string that resolution yields for an optional key: the configured
/// value when the path holds a string, the default otherwise.
pub open spec fn resolved_str(doc: toml::Value, section: Seq<char>, key: Seq<char>, default: Seq<char>) -> Seq<char> {
    match str_at(doc, section, key) {
        Some(s) => s,
        None => default,
    }
}

/// The integer that resolution yields for an optional key: the configured
/// value when the path holds an integer, the default otherwise.
pub open spec fn resolved_int(doc: toml::Value, section: Seq<char>, key: Seq<char>, default: i64) -> i64 {
    match int_at(doc, section, key) {
        Some(i) => i,
        None => default,
    }
}

/// Parses a configuration text into a TOML document: the document of the
/// text when it is valid TOML, `ConfigParse` otherwise.
pub fn parse_config(s: &str) -> (r: Result<toml::Value, CcError>)
    ensures
        r is Ok <==> toml_source_ok(s@),
        r matches Ok(v) ==> v == toml_doc(s@),
        r matches Err(e) ==> e == CcError::ConfigParse,
{
    match toml_parse(s) {
        Ok(v) => Ok(v),
        Err(_) => Err(CcError::ConfigParse),
    }
}

/// The entry at `config[key][second_key]`, if any.
fn lookup<'a>(config: &'a toml::Value, key: &str, second_key: &str) -> (r: Option<&'a toml::Value>)
    ensures
        r matches Some(v) ==> entry_at(*config, key@, second_key@) == Some(*v),
        r is None ==> entry_at(*config, key@, second_key@) is None,
{
    match value_get(config, key) {
        Some(t) => value_get(t, second_key),
        None => None,
    }
}

/// Get a string value from the config.
///
/// Returns the configured value when `config[key][second_key]` holds a
/// string. When the path is absent, or holds a value of another type, the
/// supplied default is returned instead and exactly one diagnostic naming
/// the path and the fallback is appended to `diags`; such a fallback is
/// never an error, since only cosmetic fields are resolved this way.
pub fn get_config_str<'a>(
    config: &'a toml::Value,
    key: &str,
    second_key: &str,
    default: &'a str,
    diags: &mut Vec<Diagnostic>,
) -> (r: &'a str)
    ensures
        r@ == resolved_str(*config, key@, second_key@, default@),
        match entry_at(*config, key@, second_key@) {
            Some(v) => match toml_as_str(v) {
                Some(_) => final(diags)@ == old(diags)@,
                None => pushed_one(old(diags)@, final(diags)@)
                    && is_wrong_type_str(final(diags)@.last(), key@, second_key@, default@),
            },
            None => pushed_one(old(diags)@, final(diags)@)
                && is_missing_str(final(diags)@.last(), key@, second_key@, default@),
        },
{
    match lookup(config, key, second_key) {
        Some(v) => match value_as_str(v) {
            Some(s) => s,
            None => {
                diags.push(Diagnostic::WrongTypeStr {
                    section: key.to_owned(),
                    key: second_key.to_owned(),
                    fallback: default.to_owned(),
                });
                proof {
                    assert(diags@.drop_last() =~= old(diags)@);
                }
                default
            },
        },
        None => {
            diags.push(Diagnostic::MissingStr {
                section: key.to_owned(),
                key: second_key.to_owned(),
                fallback: default.to_owned(),
            });
            proof {
                assert(diags@.drop_last() =~= old(diags)@);
            }
            default
        },
    }
}

/// Get an integer value from the config.
///
/// Returns the configured value when `config[key][second_key]` holds an
/// integer. When the path is absent, or holds a value of another type, the
/// supplied default is returned instead and exactly one diagnostic naming
/// the path and the fallback is appended to `diags`.
pub fn get_config_int(
    config: &toml::Value,
    key: &str,
    second_key: &str,
    default: i64,
    diags: &mut Vec<Diagnostic>,
) -> (r: i64)
    ensures
        r == resolved_int(*config, key@, second_key@, default),
        match entry_at(*config, key@, second_key@) {
            Some(v) => match toml_as_int(v) {
                Some(_) => final(diags)@ == old(diags)@,
                None => pushed_one(old(diags)@, final(diags)@)
                    && is_wrong_type_int(final(diags)@.last(), key@, second_key@, default),
            },
            None => pushed_one(old(diags)@, final(diags)@)
                && is_missing_int(final(diags)@.last(), key@, second_key@, default),
        },
{
    match lookup(config, key, second_key) {
        Some(v) => match value_as_int(v) {
            Some(i) => i,
            None => {
                diags.push(Diagnostic::WrongTypeInt {
                    section: key.to_owned(),
                    key: second_key.to_owned(),
                    fallback: default,
                });
                proof {
                    assert(diags@.drop_last() =~= old(diags)@);
                }
                default
            },
        },
        None => {
            diags.push(Diagnostic::MissingInt {
                section: key.to_owned(),
                key: second_key.to_owned(),
                fallback: default,
            });
            proof {
                assert(diags@.drop_last() =~= old(diags)@);
            }
            default
        },
    }
}

/// Get a string value that the pipeline cannot do without.
///
/// Returns the configured value when `config[key][second_key]` holds a
/// string, and fails with `MissingRequiredField` when the path is absent or
/// holds a value of another type: for a required field a wrong type is an
/// error, never a silent fallback.
pub fn get_required_str<'a>(config: &'a toml::Value, key: &str, second_key: &str) -> (r: Result<&'a str, CcError>)
    ensures
        r is Ok <==> str_at(*config, key@, second_key@) is Some,
        r matches Ok(s) ==> str_at(*config, key@, second_key@) == Some(s@),
        r matches Err(e) ==> e == CcError::MissingRequiredField,
{
    match lookup(config, key, second_key) {
        Some(v) => match value_as_str(v) {
            Some(s) => Ok(s),
            None => Err(CcError::MissingRequiredField),
        },
        None => Err(CcError::MissingRequiredField),
    }
}

} // verus!
