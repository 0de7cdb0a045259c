//! The boundary to the `term` crate: the terminfo database type, its
//! string-capability table, and parameterized template expansion.

use vstd::prelude::*;
use std::collections::HashMap;
use term::terminfo::TermInfo;
use term::terminfo::parm;
use term::terminfo::parm::Param;
use term::terminfo::parm::Variables;

verus! {

#[verifier::external_type_specification]
#[verifier::external_body]
pub struct ExTermInfo(TermInfo);

/// The string-capability table of a terminfo database: capability name to
/// raw (unexpanded) template bytes.
pub uninterp spec fn strings_of(t: TermInfo) -> Map<Seq<char>, Seq<u8>>;

/// What `term`'s `parm::expand` returns for a template and a list of numeric
/// parameters, with freshly zeroed variables: the expanded bytes, or nothing
/// when the template is malformed.
pub uninterp spec fn expand_of(cap: Seq<u8>, params: Seq<i32>) -> Option<Seq<u8>>;

/// Relies on `TermInfo::from_env`, which reads the terminal description the
/// environment names. Nothing is promised of the result: which database
/// comes back, if any, depends on the environment. Trusted beyond the
/// contract: `from_env` is assumed to return rather than panic, yet its
/// compiled-format parser slices the strings table with offsets taken from
/// the file itself, so a corrupt database can abort here instead of being
/// reported as a parse error and falling back to the empty database.
#[verifier::external_body]
pub(crate) fn terminfo_from_env() -> Option<TermInfo> {
    TermInfo::from_env().ok()
}

/// Relies on the `TermInfo` struct literal: a database built with empty
/// maps has an empty string-capability table.
#[verifier::external_body]
pub(crate) fn empty_terminfo() -> (t: TermInfo)
    ensures
        forall|k: Seq<char>| !strings_of(t).contains_key(k),
{
    TermInfo {
        names: Vec::new(),
        bools: HashMap::new(),
        numbers: HashMap::new(),
        strings: HashMap::new(),
    }
}

/// Relies on `HashMap::contains_key` applied to `TermInfo`'s `strings`
/// field, the string-capability table.
#[verifier::external_body]
pub(crate) fn has_cap(t: &TermInfo, name: &str) -> (r: bool)
    ensures
        r == strings_of(*t).contains_key(name@),
{
    t.strings.contains_key(name)
}

/// Relies on `HashMap::get` applied to `TermInfo`'s `strings` field: for a
/// present key it hands back that key's template bytes.
#[verifier::external_body]
pub(crate) fn cap_bytes(t: &TermInfo, name: &str) -> (r: Vec<u8>)
    requires
        strings_of(*t).contains_key(name@),
    ensures
        r@ == strings_of(*t)[name@],
{
    match t.strings.get(name) {
        Some(v) => v.clone(),
        None => Vec::new(),
    }
}

/// Relies on `parm::expand` from the `term` crate: substitution of numeric
/// parameters into a capability template is a function of the template bytes
/// and the parameters alone, since the variables start zeroed. The
/// `requires` admits the templates `safe_template` describes, with
/// parameters non-negative and below `i32::MAX`: on those the interpreter
/// has no panic path — its constant, width and precision parsing is checked
/// arithmetic, its variable and parameter indexing is bounded, and the one
/// admitted subtraction acts on two non-negative operands just pushed. The
/// escapes left out can index the parameter array out of range (`%p0`),
/// divide by a value popped from the stack (`%/`, `%m`), overflow (`%+`,
/// `%*`, a second `%i`, `%-` on anything but two direct pushes), or reach
/// an unchecked increment of a parsed precision in its number formatting.
#[verifier::external_body]
pub(crate) fn expand_cap(cap: &Vec<u8>, params: &Vec<i32>) -> (r: Option<Vec<u8>>)
    requires
        crate::template::safe_template(cap@),
        crate::template::params_bounded(params@),
    ensures
        r.deep_view() == expand_of(cap@, params@),
{
    let ps: Vec<Param> = params.iter().map(|n| Param::Number(*n)).collect();
    parm::expand(cap.as_slice(), ps.as_slice(), &mut Variables::new()).ok()
}

} // verus!
