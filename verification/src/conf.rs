//! The configuration lifecycle: hierarchical records, the merge rule, and
//! the per-module lifecycle callbacks the host invokes while it parses its
//! configuration.
//!
//! Configuration values live at three nesting scopes — global, server,
//! location. After directive parsing, each child-scope record is merged
//! against its parent: every field the child left unset inherits the
//! parent's value, and no explicitly-set child value is ever overwritten.

use crate::arena::Arena;
use crate::status::Status;
use vstd::prelude::*;

verus! {

/// Failure of a configuration lifecycle callback; the host aborts
/// configuration loading when one is reported.
#[derive(Clone, Copy, PartialEq, Eq, Structural, Debug)]
pub struct ConfigError;

/// Host-assigned identity of an extension module: the index under which
/// the module's records stand in every per-scope configuration array.
/// Assigned once at host startup and read-only afterwards.
#[derive(Clone, Copy, PartialEq, Eq, Structural, Debug)]
pub struct ModuleDescriptor {
    /// The module's slot in the per-scope configuration arrays.
    pub ctx_index: usize,
}

/// The host's configuration context: one record handle per module at each
/// of the three scopes, indexed by the module's assigned slot.
pub struct ConfContext {
    /// Global-scope record handles, one per module.
    pub main_conf: Vec<usize>,
    /// Server-scope record handles, one per module.
    pub srv_conf: Vec<usize>,
    /// Location-scope record handles, one per module.
    pub loc_conf: Vec<usize>,
}

/// The handle of a module's global-scope record in a configuration context.
///
/// A module may only pass its own descriptor; the handle is downcast by the
/// caller to the module's own record type, an obligation the descriptor's
/// one-module ownership upholds.
pub fn ngx_http_conf_get_module_main_conf(cf: &ConfContext, module: &ModuleDescriptor) -> (h: usize)
    requires
        module.ctx_index < cf.main_conf@.len(),
    ensures
        h == cf.main_conf@[module.ctx_index as int],
{
    *vstd::std_specs::vec::vec_index(&cf.main_conf, module.ctx_index)
}

/// The handle of a module's server-scope record in a configuration context.
pub fn ngx_http_conf_get_module_srv_conf(cf: &ConfContext, module: &ModuleDescriptor) -> (h: usize)
    requires
        module.ctx_index < cf.srv_conf@.len(),
    ensures
        h == cf.srv_conf@[module.ctx_index as int],
{
    *vstd::std_specs::vec::vec_index(&cf.srv_conf, module.ctx_index)
}

/// The handle of a module's location-scope record in a configuration context.
pub fn ngx_http_conf_get_module_loc_conf(cf: &ConfContext, module: &ModuleDescriptor) -> (h: usize)
    requires
        module.ctx_index < cf.loc_conf@.len(),
    ensures
        h == cf.loc_conf@[module.ctx_index as int],
{
    *vstd::std_specs::vec::vec_index(&cf.loc_conf, module.ctx_index)
}

/// A mergeable configuration record.
///
/// `spec_merge` is the record's own merge rule as a mathematical function;
/// `merge` performs it in place. Every implementor proves that its rule is
/// idempotent: merging against the same parent a second time changes
/// nothing more, so repeated merges cause no inheritance drift.
pub trait Merge: Sized {
    /// The record `self` becomes when merged against parent record `prev`.
    spec fn spec_merge(self, prev: Self) -> Self;

    /// Fill the unset fields of `self` from the parent record `prev`.
    fn merge(&mut self, prev: &Self)
        ensures
            *final(self) == old(self).spec_merge(*prev),
    ;

    /// Law: merging is idempotent — a second merge against the same parent
    /// yields the same record as the first.
    proof fn lemma_merge_idempotent(conf: Self, prev: Self)
        ensures
            conf.spec_merge(prev).spec_merge(prev) == conf.spec_merge(prev),
    ;
}

/// A configuration record the host can create default-valued, once per
/// applicable scope, during configuration parsing.
pub trait DefaultConf: Sized {
    /// The record's default (all-unset) value.
    spec fn spec_default() -> Self;

    /// Construct the default value.
    fn default_conf() -> (r: Self)
        ensures
            r == Self::spec_default(),
    ;
}

impl Merge for () {
    open spec fn spec_merge(self, prev: ()) -> () {
        ()
    }

    fn merge(&mut self, _prev: &()) {
    }

    proof fn lemma_merge_idempotent(conf: (), prev: ()) {
    }
}

impl DefaultConf for () {
    open spec fn spec_default() -> () {
        ()
    }

    fn default_conf() -> (r: ()) {
        ()
    }
}

/// One configuration field: either explicitly set by a directive, or still
/// unset and so open to inheriting the parent scope's value.
///
/// "Unset" is each record's own sentinel; this type is the common case of
/// a field with an explicit unset marker.
#[derive(Clone, Copy, PartialEq, Eq, Structural, Debug)]
pub enum ConfValue {
    /// No directive set this field in its scope.
    Unset,
    /// A directive set this field to the carried value.
    Given(u64),
}

impl ConfValue {
    /// Whether a directive set this field.
    pub open spec fn is_set(self) -> bool {
        self is Given
    }

    /// The effective value: the field's own if set, else the default.
    pub open spec fn spec_value_or(self, default: u64) -> u64 {
        match self {
            ConfValue::Given(v) => v,
            ConfValue::Unset => default,
        }
    }

    /// The effective value of this field, given the built-in default.
    pub fn value_or(&self, default: u64) -> (r: u64)
        ensures
            r == self.spec_value_or(default),
    {
        match self {
            ConfValue::Given(v) => *v,
            ConfValue::Unset => default,
        }
    }
}

impl Merge for ConfValue {
    /// A set field keeps its value; an unset field inherits the parent's.
    open spec fn spec_merge(self, prev: ConfValue) -> ConfValue {
        if self is Given {
            self
        } else {
            prev
        }
    }

    fn merge(&mut self, prev: &ConfValue) {
        match self {
            ConfValue::Unset => {
                *self = *prev;
            },
            ConfValue::Given(_) => {
            },
        }
    }

    proof fn lemma_merge_idempotent(conf: ConfValue, prev: ConfValue) {
    }
}

impl DefaultConf for ConfValue {
    open spec fn spec_default() -> ConfValue {
        ConfValue::Unset
    }

    fn default_conf() -> (r: ConfValue) {
        ConfValue::Unset
    }
}

/// Law: merge never overwrites — a field a directive explicitly set keeps
/// its value through a merge, whatever the parent holds.
pub proof fn lemma_merge_no_overwrite(conf: ConfValue, prev: ConfValue)
    requires
        conf.is_set(),
    ensures
        conf.spec_merge(prev) == conf,
{
}

/// Law: merge inherits — a field left unset in the child takes exactly the
/// parent's value, set or not.
pub proof fn lemma_merge_inheritance(conf: ConfValue, prev: ConfValue)
    requires
        !conf.is_set(),
    ensures
        conf.spec_merge(prev) == prev,
{
}

/// Merge a chain of records in scope-nesting order, outermost first.
///
/// Each record at nesting depth `i + 1` is merged against the
/// already-merged — never the raw — record of depth `i`, exactly as the
/// host invokes the merge callbacks: a child scope's merge runs only after
/// its parent scope's merge completed.
pub fn merge_chain<M: Merge>(raw: Vec<M>) -> (merged: Vec<M>)
    ensures
        merged@.len() == raw@.len(),
        raw@.len() > 0 ==> merged@[0] == raw@[0],
        forall|i: int|
            1 <= i < merged@.len() ==> #[trigger] merged@[i] == raw@[i].spec_merge(merged@[i - 1]),
{
    let mut raw = raw;
    let ghost raw0 = raw@;
    let mut merged: Vec<M> = Vec::new();
    let mut i: usize = 0;
    let n = raw.len();
    while i < n
        invariant
            n == raw0.len(),
            i <= n,
            raw@ == raw0.skip(i as int),
            merged@.len() == i,
            i > 0 ==> merged@[0] == raw0[0],
            forall|j: int|
                1 <= j < i ==> #[trigger] merged@[j] == raw0[j].spec_merge(merged@[j - 1]),
        decreases n - i,
    {
        let mut rec = raw.remove(0);
        if i > 0 {
            let prev = merged.pop().unwrap();
            rec.merge(&prev);
            merged.push(prev);
        }
        merged.push(rec);
        i = i + 1;
        proof {
            assert(raw@ =~= raw0.skip(i as int));
        }
    }
    merged
}

/// The nearest explicitly-set value at or above depth `i` in a chain of
/// scope records, outermost first; the outermost record itself when no
/// scope down to depth `i` set one.
pub open spec fn nearest_set(chain: Seq<ConfValue>, i: int) -> ConfValue
    decreases i,
{
    if i <= 0 {
        chain[0]
    } else if chain[i] is Given {
        chain[i]
    } else {
        nearest_set(chain, i - 1)
    }
}

/// Law: in a merged chain of single-field records, the record at each
/// depth carries exactly the nearest explicitly-set value at or above that
/// depth — an explicitly-set value is kept, and an unset field inherits
/// through any number of scopes.
pub proof fn lemma_chain_effective(raw: Seq<ConfValue>, merged: Seq<ConfValue>, i: int)
    requires
        merged.len() == raw.len(),
        raw.len() > 0 ==> merged[0] == raw[0],
        forall|j: int|
            1 <= j < merged.len() ==> #[trigger] merged[j] == raw[j].spec_merge(merged[j - 1]),
        0 <= i < raw.len(),
    ensures
        merged[i] == nearest_set(raw, i),
    decreases i,
{
    if i > 0 {
        lemma_chain_effective(raw, merged, i - 1);
    }
}

/// The contract every extension module implements: three configuration
/// record kinds and the lifecycle callbacks the host invokes, per
/// configuration phase, in a fixed order — preconfiguration, the
/// `create_*` callbacks (once per applicable scope), `init_main_conf`,
/// the `merge_*` callbacks (once per child scope, outer before inner),
/// postconfiguration.
///
/// Any callback that fails aborts configuration loading; the
/// default-implemented hooks never fail.
pub trait HTTPModule {
    /// The module's global-scope record kind.
    type MainConf: Merge + DefaultConf;

    /// The module's server-scope record kind.
    type SrvConf: Merge + DefaultConf;

    /// The module's location-scope record kind.
    type LocConf: Merge + DefaultConf;

    /// Hook before any directive parsing; the default does nothing and
    /// succeeds.
    fn preconfiguration() -> (r: Status)
        default_ensures
            r.is_ok(),
    {
        Status::ok()
    }

    /// Hook after all parsing and merging; the default does nothing and
    /// succeeds.
    fn postconfiguration() -> (r: Status)
        default_ensures
            r.is_ok(),
    {
        Status::ok()
    }

    /// Allocate the module's global-scope record, default-valued, in the
    /// configuration arena, and return its handle. Called once.
    fn create_main_conf(pool: &mut Arena<Self::MainConf>) -> (h: usize)
        requires
            old(pool).is_active(),
        ensures
            final(pool).is_active(),
            final(pool)@ == old(pool)@.push(Self::MainConf::spec_default()),
            h == old(pool)@.len(),
    {
        pool.allocate(Self::MainConf::default_conf())
    }

    /// Post-parse fixups on the global record; the default touches nothing
    /// and succeeds.
    fn init_main_conf(conf: &mut Self::MainConf) -> (r: Result<(), ConfigError>)
        default_ensures
            r is Ok,
            *final(conf) == *old(conf),
    {
        Ok(())
    }

    /// Allocate a server-scope record, default-valued, in the configuration
    /// arena, and return its handle. Called once per declared server scope.
    fn create_srv_conf(pool: &mut Arena<Self::SrvConf>) -> (h: usize)
        requires
            old(pool).is_active(),
        ensures
            final(pool).is_active(),
            final(pool)@ == old(pool)@.push(Self::SrvConf::spec_default()),
            h == old(pool)@.len(),
    {
        pool.allocate(Self::SrvConf::default_conf())
    }

    /// Merge a server-scope record in place against its parent scope's
    /// already-merged record: on success the child reflects its own merge
    /// rule, inheriting only where it was unset.
    fn merge_srv_conf(prev: &Self::SrvConf, conf: &mut Self::SrvConf) -> (r: Result<
        (),
        ConfigError,
    >)
        ensures
            r is Ok ==> *final(conf) == old(conf).spec_merge(*prev),
        default_ensures
            r is Ok,
    {
        conf.merge(prev);
        Ok(())
    }

    /// Allocate a location-scope record, default-valued, in the
    /// configuration arena, and return its handle. Called once per declared
    /// location scope.
    fn create_loc_conf(pool: &mut Arena<Self::LocConf>) -> (h: usize)
        requires
            old(pool).is_active(),
        ensures
            final(pool).is_active(),
            final(pool)@ == old(pool)@.push(Self::LocConf::spec_default()),
            h == old(pool)@.len(),
    {
        pool.allocate(Self::LocConf::default_conf())
    }

    /// Merge a location-scope record in place against its parent scope's
    /// already-merged record.
    fn merge_loc_conf(prev: &Self::LocConf, conf: &mut Self::LocConf) -> (r: Result<
        (),
        ConfigError,
    >)
        ensures
            r is Ok ==> *final(conf) == old(conf).spec_merge(*prev),
        default_ensures
            r is Ok,
    {
        conf.merge(prev);
        Ok(())
    }
}

/// The trivial extension module: it declares no configuration of its own,
/// so every lifecycle callback is the default one.
impl HTTPModule for () {
    type MainConf = ();

    type SrvConf = ();

    type LocConf = ();
}

} // verus!

