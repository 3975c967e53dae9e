use vstd::prelude::*;

verus! {

/// A parameter value as the host hands it in.
pub enum ParamValue {
    Null,
    Bool(bool),
    Int(i64),
    Text(String),
    /// Any other value (a fraction, a list, an object).
    Other,
}

/// Why a parameter could not be read.
#[derive(Clone, Copy, Debug, PartialEq, Eq, Structural)]
pub enum ParamFault {
    Missing,
    WrongType,
}

/// Named parameters of an action call. A later entry for a name shadows an
/// earlier one, so the whole behaves as a map.
pub struct Params {
    entries: Vec<(String, ParamValue)>,
}

/// The value bound to `key` by the last entry that names it.
pub open spec fn lookup(entries: Seq<(String, ParamValue)>, key: Seq<char>) -> Option<ParamValue>
    decreases entries.len(),
{
    if entries.len() == 0 {
        None
    } else if entries.last().0@ == key {
        Some(entries.last().1)
    } else {
        lookup(entries.drop_last(), key)
    }
}

impl View for Params {
    type V = Map<Seq<char>, ParamValue>;

    closed spec fn view(&self) -> Map<Seq<char>, ParamValue> {
        Map::new(
            |k: Seq<char>| lookup(self.entries@, k) is Some,
            |k: Seq<char>| lookup(self.entries@, k)->Some_0,
        )
    }
}

impl Params {
    pub fn new() -> (r: Params)
        ensures
            r@ == Map::<Seq<char>, ParamValue>::empty(),
    {
        let r = Params { entries: Vec::new() };
        assert(r@ =~= Map::<Seq<char>, ParamValue>::empty());
        r
    }

    /// Binds `key` to `value`, replacing any earlier binding.
    pub fn insert(&mut self, key: String, value: ParamValue)
        ensures
            final(self)@ == old(self)@.insert(key@, value),
    {
        let ghost before = self.entries@;
        self.entries.push((key, value));
        proof {
            assert(self.entries@.drop_last() =~= before);
            assert(self@ =~= old(self)@.insert(key@, value));
        }
    }

    /// The value bound to `key`, if any.
    pub fn get(&self, key: &str) -> (r: Option<&ParamValue>)
        ensures
            self@.contains_key(key@) ==> r == Some(&self@[key@]),
            !self@.contains_key(key@) ==> r is None,
    {
        let k = String::from_str(key);
        let mut i: usize = self.entries.len();
        assert(self.entries@.subrange(0, i as int) =~= self.entries@);
        while i > 0
            invariant
                i <= self.entries@.len(),
                k@ == key@,
                lookup(self.entries@, key@) == lookup(self.entries@.subrange(0, i as int), key@),
            decreases i,
        {
            let ghost prefix = self.entries@.subrange(0, i as int);
            assert(prefix.drop_last() =~= self.entries@.subrange(0, i - 1));
            if self.entries[i - 1].0 == k {
                return Some(&self.entries[i - 1].1);
            }
            i = i - 1;
        }
        None
    }
}

/// A required text parameter.
pub open spec fn text_param(p: Map<Seq<char>, ParamValue>, key: Seq<char>) -> Result<Seq<char>, ParamFault> {
    if !p.contains_key(key) {
        Err(ParamFault::Missing)
    } else {
        match p[key] {
            ParamValue::Text(s) => Ok(s@),
            _ => Err(ParamFault::WrongType),
        }
    }
}

/// An optional text parameter: absent or null gives `dflt`.
pub open spec fn text_param_or(p: Map<Seq<char>, ParamValue>, key: Seq<char>, dflt: Seq<char>) -> Result<Seq<char>, ParamFault> {
    if !p.contains_key(key) {
        Ok(dflt)
    } else {
        match p[key] {
            ParamValue::Null => Ok(dflt),
            ParamValue::Text(s) => Ok(s@),
            _ => Err(ParamFault::WrongType),
        }
    }
}

/// An optional text parameter with no default: absent, null or of another
/// kind gives nothing.
pub open spec fn text_param_lenient(p: Map<Seq<char>, ParamValue>, key: Seq<char>) -> Option<Seq<char>> {
    if p.contains_key(key) && p[key] is Text {
        Some(p[key]->Text_0@)
    } else {
        None
    }
}

/// A required integer parameter.
pub open spec fn int_param(p: Map<Seq<char>, ParamValue>, key: Seq<char>) -> Result<i64, ParamFault> {
    if !p.contains_key(key) {
        Err(ParamFault::Missing)
    } else {
        match p[key] {
            ParamValue::Int(i) => Ok(i),
            _ => Err(ParamFault::WrongType),
        }
    }
}

/// Reads a required text parameter.
pub fn extract_string(params: &Params, key: &str) -> (r: Result<String, ParamFault>)
    ensures
        match text_param(params@, key@) {
            Ok(s) => r matches Ok(v) && v@ == s,
            Err(f) => r == Err::<String, ParamFault>(f),
        },
{
    match params.get(key) {
        None => Err(ParamFault::Missing),
        Some(ParamValue::Text(s)) => Ok(s.clone()),
        Some(_) => Err(ParamFault::WrongType),
    }
}

/// Reads an optional text parameter, giving `dflt` when it is absent or null.
pub fn extract_string_or(params: &Params, key: &str, dflt: &str) -> (r: Result<String, ParamFault>)
    ensures
        match text_param_or(params@, key@, dflt@) {
            Ok(s) => r matches Ok(v) && v@ == s,
            Err(f) => r == Err::<String, ParamFault>(f),
        },
{
    match params.get(key) {
        None => Ok(String::from_str(dflt)),
        Some(ParamValue::Null) => Ok(String::from_str(dflt)),
        Some(ParamValue::Text(s)) => Ok(s.clone()),
        Some(_) => Err(ParamFault::WrongType),
    }
}

/// Reads an optional text parameter, ignoring a value of another kind.
pub fn extract_string_lenient(params: &Params, key: &str) -> (r: Option<String>)
    ensures
        match text_param_lenient(params@, key@) {
            Some(s) => r matches Some(v) && v@ == s,
            None => r is None,
        },
{
    match params.get(key) {
        Some(ParamValue::Text(s)) => Some(s.clone()),
        _ => None,
    }
}

/// Reads a required integer parameter.
pub fn extract_int(params: &Params, key: &str) -> (r: Result<i64, ParamFault>)
    ensures
        r == int_param(params@, key@),
{
    match params.get(key) {
        None => Err(ParamFault::Missing),
        Some(ParamValue::Int(i)) => Ok(*i),
        Some(_) => Err(ParamFault::WrongType),
    }
}

} // verus!
