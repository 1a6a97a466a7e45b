use vstd::prelude::*;
use vstd::string::StrSliceExecFns;

verus! {

/// How a destructured declarator's per-name verdicts aggregate: under
/// `All` every bound name must be eligible; under `Any` (the default) one
/// eligible bound name suffices.
#[derive(Clone, Copy, Debug, PartialEq, Eq, Structural)]
pub enum Destructuring {
    All,
    Any,
}

impl Default for Destructuring {
    fn default() -> (d: Self)
        ensures
            d == Destructuring::Any,
    {
        Destructuring::Any
    }
}

/// The rule's configuration surface.
#[derive(Clone, Copy, Debug, PartialEq, Eq, Structural)]
pub struct PreferConstOptions {
    pub destructuring: Destructuring,
    pub ignore_read_before_assign: bool,
}

impl Default for PreferConstOptions {
    fn default() -> (opts: Self)
        ensures
            opts.destructuring == Destructuring::Any,
            opts.ignore_read_before_assign == false,
    {
        PreferConstOptions { destructuring: Destructuring::Any, ignore_read_before_assign: false }
    }
}

/// The rule itself: its configured options.
#[derive(Clone, Debug)]
pub struct PreferConst(pub Box<PreferConstOptions>);

impl Default for PreferConst {
    fn default() -> (rule: Self)
        ensures
            rule.0.destructuring == Destructuring::Any,
            rule.0.ignore_read_before_assign == false,
    {
        PreferConst(Box::new(PreferConstOptions::default()))
    }
}

#[verifier::external_type_specification]
#[verifier::external_body]
pub struct ExValue(serde_json::Value);

/// What serde_json::Value::get returns for a string index: a function of
/// the value and the key alone.
pub uninterp spec fn json_field(value: serde_json::Value, key: Seq<char>) -> Option<
    serde_json::Value,
>;

/// What serde_json::Value::as_str returns: a function of the value alone.
pub uninterp spec fn json_str_of(value: serde_json::Value) -> Option<Seq<char>>;

/// What serde_json::Value::as_bool returns: a function of the value alone.
pub uninterp spec fn json_bool_of(value: serde_json::Value) -> Option<bool>;

/// Relies on serde_json::Value::get with a string index: on a JSON
/// object it looks the key up, on every other value it returns None; the
/// result depends on the value and the key alone.
#[verifier::external_body]
fn json_get<'a>(value: &'a serde_json::Value, key: &str) -> (r: Option<&'a serde_json::Value>)
    ensures
        match r {
            Some(field) => json_field(*value, key@) == Some(*field),
            None => json_field(*value, key@) is None,
        },
{
    value.get(key)
}

/// Relies on serde_json::Value::as_str: Some of the text for a JSON
/// string, None for every other value; the result depends on the value
/// alone.
#[verifier::external_body]
fn json_as_str(value: &serde_json::Value) -> (r: Option<&str>)
    ensures
        match r {
            Some(s) => json_str_of(*value) == Some(s@),
            None => json_str_of(*value) is None,
        },
{
    value.as_str()
}

/// Relies on serde_json::Value::as_bool: Some of the value for a JSON
/// boolean, None for every other value; the result depends on the value
/// alone.
#[verifier::external_body]
fn json_as_bool(value: &serde_json::Value) -> (r: Option<bool>)
    ensures
        r == json_bool_of(*value),
{
    value.as_bool()
}

/// Character-for-character string equality.
fn str_eq(a: &str, b: &str) -> (r: bool)
    ensures
        r == (a@ == b@),
{
    let a_len = a.unicode_len();
    let b_len = b.unicode_len();
    if a_len != b_len {
        proof {
            assert(a@.len() != b@.len());
        }
        return false;
    }
    let mut i: usize = 0;
    while i < a_len
        invariant
            a_len == a@.len(),
            b_len == b@.len(),
            a_len == b_len,
            i <= a_len,
            forall|j: int| 0 <= j < i ==> a@[j] == b@[j],
        decreases a_len - i,
    {
        if a.get_char(i) != b.get_char(i) {
            return false;
        }
        i = i + 1;
    }
    proof {
        assert(a@ =~= b@);
    }
    true
}

/// The destructuring mode a configuration field selects: `all` selects
/// `All`; a missing field, any other string, and any non-string value
/// fall back to the default `Any`.
pub fn destructuring_mode(field: Option<&str>) -> (d: Destructuring)
    ensures
        (d == Destructuring::All) <==> (field matches Some(s) && s@ == "all"@),
        (d == Destructuring::Any) <==> !(field matches Some(s) && s@ == "all"@),
{
    match field {
        Some(s) => {
            if str_eq(s, "all") {
                Destructuring::All
            } else {
                Destructuring::Any
            }
        },
        None => Destructuring::Any,
    }
}

/// The read-before-assign tolerance a configuration field selects: only
/// an explicit `true` enables it; a missing field and any non-boolean
/// value fall back to the default `false`.
pub fn ignore_read_flag(field: Option<bool>) -> (r: bool)
    ensures
        r == (field == Some(true)),
{
    match field {
        Some(b) => b,
        None => false,
    }
}

/// The destructuring mode a configuration selects: `All` exactly when
/// its `destructuring` field is present and holds the string `all`;
/// everything else falls back to the default `Any`.
pub open spec fn spec_destructuring_of(config: serde_json::Value) -> Destructuring {
    match json_field(config, "destructuring"@) {
        Some(field) => {
            if json_str_of(field) == Some("all"@) {
                Destructuring::All
            } else {
                Destructuring::Any
            }
        },
        None => Destructuring::Any,
    }
}

/// The read-before-assign tolerance a configuration selects: enabled
/// exactly when its `ignoreReadBeforeAssign` field is present and holds
/// the boolean true; everything else falls back to the default `false`.
pub open spec fn spec_ignore_read_of(config: serde_json::Value) -> bool {
    match json_field(config, "ignoreReadBeforeAssign"@) {
        Some(field) => json_bool_of(field) == Some(true),
        None => false,
    }
}

impl PreferConst {
    /// Builds the rule from its JSON configuration object. The two
    /// recognized fields are `destructuring` and `ignoreReadBeforeAssign`;
    /// a missing field or an unrecognized value falls back to the
    /// default, so configuration never fails.
    pub fn from_configuration(value: serde_json::Value) -> (rule: Self)
        ensures
            rule.0.destructuring == spec_destructuring_of(value),
            rule.0.ignore_read_before_assign == spec_ignore_read_of(value),
    {
        let destructuring = match json_get(&value, "destructuring") {
            Some(field) => destructuring_mode(json_as_str(field)),
            None => Destructuring::Any,
        };
        let ignore_read_before_assign = match json_get(&value, "ignoreReadBeforeAssign") {
            Some(field) => ignore_read_flag(json_as_bool(field)),
            None => false,
        };
        PreferConst(Box::new(PreferConstOptions { destructuring, ignore_read_before_assign }))
    }

    /// The configured options.
    pub fn options(&self) -> (opts: PreferConstOptions)
        ensures
            opts == *self.0,
    {
        *self.0
    }
}

} // verus!
