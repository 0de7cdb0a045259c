//! Capability validation and the operation driver.

use vstd::prelude::*;
use term::terminfo::TermInfo;
use crate::caps;
use crate::caps::DevFn;
use crate::template;
use crate::tinfo;

verus! {

/// The one failure this crate can report: a required capability absent from
/// the terminal's capability database, identified by name.
#[derive(Debug)]
pub enum DriverError {
    MissingCapability(String),
}

impl DriverError {
    /// The name of the missing capability.
    pub open spec fn cap(self) -> Seq<char> {
        match self {
            DriverError::MissingCapability(s) => s@,
        }
    }
}

/// Every required capability name is a key of the database's
/// string-capability table.
pub open spec fn validated(db: Map<Seq<char>, Seq<u8>>) -> bool {
    forall|i: int|
        0 <= i < caps::required_caps().len() ==> db.contains_key(
            #[trigger] caps::required_caps()[i],
        )
}

/// Checks every required capability name against the database, in order,
/// and reports the first one missing.
pub fn validate_caps(t: &TermInfo) -> (r: Result<(), DriverError>)
    ensures
        r is Ok <==> validated(tinfo::strings_of(*t)),
        r is Err ==> exists|i: int|
            0 <= i < caps::required_caps().len() && (r->Err_0).cap() == caps::required_caps()[i]
                && !tinfo::strings_of(*t).contains_key(caps::required_caps()[i]) && (forall|
                j: int,
            |
                0 <= j < i ==> tinfo::strings_of(*t).contains_key(
                    #[trigger] caps::required_caps()[j],
                )),
{
    let names = caps::required_list();
    let n: usize = names.len();
    for k in 0..n
        invariant
            n == names@.len(),
            names@.len() == caps::required_caps().len(),
            forall|i: int| 0 <= i < names@.len() ==> (#[trigger] names@[i])@ == caps::required_caps()[i],
            forall|j: int|
                0 <= j < k ==> tinfo::strings_of(*t).contains_key(
                    #[trigger] caps::required_caps()[j],
                ),
    {
        if !tinfo::has_cap(t, names[k]) {
            return Err(DriverError::MissingCapability(names[k].to_string()));
        }
    }
    Ok(())
}

/// What `Driver::get` returns over a database's string-capability table: the
/// raw template for a parameterless operation, the expanded template for a
/// parameterized one, and no bytes at all when the capability is absent
/// (possible only for a capability outside the required list), when the
/// template or a parameter falls outside what expansion handles without
/// failure, or when expansion itself reports an error.
pub open spec fn get_spec(db: Map<Seq<char>, Seq<u8>>, dfn: DevFn) -> Seq<u8> {
    if !db.contains_key(dfn.cap_name()) {
        Seq::empty()
    } else if dfn.params().len() == 0 {
        db[dfn.cap_name()]
    } else if !(template::safe_template(db[dfn.cap_name()]) && template::params_bounded(
        dfn.params(),
    )) {
        Seq::empty()
    } else {
        match tinfo::expand_of(db[dfn.cap_name()], dfn.params()) {
            Some(s) => s,
            None => Seq::empty(),
        }
    }
}

/// Construction safety: a validated capability table holds the template of
/// every operation whose capability is on the required list — every
/// operation except `Blink`, whose capability the required list leaves out.
pub proof fn lemma_validated_covers(db: Map<Seq<char>, Seq<u8>>, dfn: DevFn)
    requires
        validated(db),
        !(dfn is Blink),
    ensures
        db.contains_key(dfn.cap_name()),
{
    match dfn {
        DevFn::EnterCa => assert(db.contains_key(caps::required_caps()[0])),
        DevFn::ExitCa => assert(db.contains_key(caps::required_caps()[1])),
        DevFn::ShowCursor => assert(db.contains_key(caps::required_caps()[2])),
        DevFn::HideCursor => assert(db.contains_key(caps::required_caps()[3])),
        DevFn::SetCursor(_, _) => assert(db.contains_key(caps::required_caps()[4])),
        DevFn::Clear => assert(db.contains_key(caps::required_caps()[5])),
        DevFn::Reset => assert(db.contains_key(caps::required_caps()[6])),
        DevFn::Underline => assert(db.contains_key(caps::required_caps()[7])),
        DevFn::Bold => assert(db.contains_key(caps::required_caps()[8])),
        DevFn::Blink => assert(false),
        DevFn::Reverse => assert(db.contains_key(caps::required_caps()[9])),
        DevFn::SetFg(_) => assert(db.contains_key(caps::required_caps()[10])),
        DevFn::SetBg(_) => assert(db.contains_key(caps::required_caps()[11])),
    }
}

/// A parameterless operation's bytes are exactly the stored template,
/// unmodified.
pub proof fn lemma_no_param_raw(db: Map<Seq<char>, Seq<u8>>, dfn: DevFn)
    requires
        db.contains_key(dfn.cap_name()),
        dfn.params().len() == 0,
    ensures
        get_spec(db, dfn) == db[dfn.cap_name()],
{
}

/// Construction safety for parameterless operations: once validation has
/// succeeded, every such operation backed by a required capability is
/// translated straight from its stored template, with no failure path left.
pub proof fn lemma_driver_no_param_raw(db: Map<Seq<char>, Seq<u8>>, dfn: DevFn)
    requires
        validated(db),
        !(dfn is Blink),
        dfn.params().len() == 0,
    ensures
        get_spec(db, dfn) == db[dfn.cap_name()],
{
    lemma_validated_covers(db, dfn);
}

/// A parameterized operation whose stored template is safely expandable,
/// and whose expansion succeeds, is translated to exactly that expansion of
/// the template with the operation's parameters: the single color code for
/// the color operations, row before column for cursor positioning.
pub proof fn lemma_param_expansion(db: Map<Seq<char>, Seq<u8>>, dfn: DevFn)
    requires
        db.contains_key(dfn.cap_name()),
        dfn.params().len() > 0,
        template::safe_template(db[dfn.cap_name()]),
        template::params_bounded(dfn.params()),
        tinfo::expand_of(db[dfn.cap_name()], dfn.params()) is Some,
    ensures
        get_spec(db, dfn) == tinfo::expand_of(db[dfn.cap_name()], dfn.params())->Some_0,
{
}

/// Idempotence of translation: any two results that `get`'s contract admits
/// for the same capability table and the same operation are byte-identical.
pub proof fn lemma_get_deterministic(
    db: Map<Seq<char>, Seq<u8>>,
    dfn: DevFn,
    r1: Seq<u8>,
    r2: Seq<u8>,
)
    requires
        r1 == get_spec(db, dfn),
        r2 == get_spec(db, dfn),
    ensures
        r1 == r2,
{
}

/// Two drivers over the same capability table translate every operation
/// alike: a driver holds no state beyond its table.
pub proof fn lemma_drivers_agree(d1: &Driver, d2: &Driver, dfn: DevFn)
    requires
        d1.db() == d2.db(),
    ensures
        get_spec(d1.db(), dfn) == get_spec(d2.db(), dfn),
{
}

/// Translates device operations into terminal escape sequences, backed by a
/// capability database that was validated when the driver was built.
pub struct Driver {
    tinfo: TermInfo,
}

impl Driver {
    /// The string-capability table this driver was validated against.
    pub closed spec fn db(&self) -> Map<Seq<char>, Seq<u8>> {
        tinfo::strings_of(self.tinfo)
    }

    #[verifier::type_invariant]
    spec fn wf(self) -> bool {
        validated(self.db())
    }

    /// Builds a driver from the environment's terminal description, falling
    /// back to an empty database when none can be read, so that the failure
    /// surfaces uniformly through capability validation.
    pub fn new() -> (r: Result<Driver, DriverError>)
        ensures
            r is Ok ==> validated((r->Ok_0).db()),
            r is Err ==> exists|i: int|
                0 <= i < caps::required_caps().len() && (r->Err_0).cap()
                    == caps::required_caps()[i],
    {
        let t = match tinfo::terminfo_from_env() {
            Some(t) => t,
            None => tinfo::empty_terminfo(),
        };
        Driver::with_terminfo(t)
    }

    /// Builds a driver from the given capability database, validating it
    /// first: construction succeeds exactly when every required capability
    /// is present, and otherwise fails naming the first one missing.
    pub fn with_terminfo(t: TermInfo) -> (r: Result<Driver, DriverError>)
        ensures
            r is Ok <==> validated(tinfo::strings_of(t)),
            r is Ok ==> (r->Ok_0).db() == tinfo::strings_of(t),
            r is Err ==> exists|i: int|
                0 <= i < caps::required_caps().len() && (r->Err_0).cap()
                    == caps::required_caps()[i] && !tinfo::strings_of(t).contains_key(
                    caps::required_caps()[i],
                ) && (forall|j: int|
                    0 <= j < i ==> tinfo::strings_of(t).contains_key(
                        #[trigger] caps::required_caps()[j],
                    )),
    {
        match validate_caps(&t) {
            Ok(()) => Ok(Driver { tinfo: t }),
            Err(e) => Err(e),
        }
    }

    /// Returns the device-specific escape sequence for the given operation.
    /// Never fails: the bytes are exactly `get_spec` of this driver's
    /// capability table and the operation.
    pub fn get(&self, dfn: DevFn) -> (r: Vec<u8>)
        ensures
            r@ == get_spec(self.db(), dfn),
    {
        let name = dfn.as_str();
        if !tinfo::has_cap(&self.tinfo, name) {
            return Vec::new();
        }
        let cap = tinfo::cap_bytes(&self.tinfo, name);
        match dfn {
            DevFn::SetFg(a) => {
                let mut params: Vec<i32> = Vec::new();
                params.push(a as i32);
                assert(params@ =~= dfn.params());
                self.expand_checked(cap, params, dfn)
            },
            DevFn::SetBg(a) => {
                let mut params: Vec<i32> = Vec::new();
                params.push(a as i32);
                assert(params@ =~= dfn.params());
                self.expand_checked(cap, params, dfn)
            },
            DevFn::SetCursor(x, y) => {
                let yi: i32 = #[verifier::truncate] (y as i32);
                let xi: i32 = #[verifier::truncate] (x as i32);
                if yi < 0 || yi == i32::MAX || xi < 0 || xi == i32::MAX {
                    return Vec::new();
                }
                let mut params: Vec<i32> = Vec::new();
                params.push(yi);
                params.push(xi);
                assert(params@ =~= dfn.params());
                self.expand_checked(cap, params, dfn)
            },
            _ => cap,
        }
    }

    /// Expands a parameterized template, handing back no bytes when the
    /// template is outside the safely expandable subset or fails to expand.
    fn expand_checked(&self, cap: Vec<u8>, params: Vec<i32>, dfn: DevFn) -> (r: Vec<u8>)
        requires
            self.db().contains_key(dfn.cap_name()),
            cap@ == self.db()[dfn.cap_name()],
            params@ == dfn.params(),
            params@.len() > 0,
            template::params_bounded(params@),
        ensures
            r@ == get_spec(self.db(), dfn),
    {
        if !template::is_safe_template(&cap) {
            return Vec::new();
        }
        match tinfo::expand_cap(&cap, &params) {
            Some(v) => v,
            None => Vec::new(),
        }
    }
}

} // verus!
